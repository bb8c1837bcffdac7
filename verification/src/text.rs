//! Verified text utilities: substring search, whitespace handling,
//! decimal parsing and rendering over `&str` views.

use vstd::prelude::*;

verus! {

/// The whitespace characters recognized as separators and padding.
pub open spec fn is_space(c: char) -> bool {
    c == ' ' || c == '\t' || c == '\r' || c == '\n'
}

/// An ASCII decimal digit.
pub open spec fn is_digit(c: char) -> bool {
    48 <= c as u32 && c as u32 <= 57
}

/// The numeric value of an ASCII digit (0 for anything else).
pub open spec fn digit_val(c: char) -> nat {
    if is_digit(c) {
        (c as u32 - 48) as nat
    } else {
        0
    }
}

/// Every character of `s` is whitespace (true of the empty sequence).
pub open spec fn is_blank(s: Seq<char>) -> bool {
    forall|i: int| 0 <= i < s.len() ==> is_space(#[trigger] s[i])
}

/// `needle` occurs as a contiguous run of characters inside `hay`.
pub open spec fn contains_seq(hay: Seq<char>, needle: Seq<char>) -> bool {
    exists|i: int|
        0 <= i && i + needle.len() <= hay.len() && #[trigger] hay.subrange(
            i,
            i + needle.len() as int,
        ) == needle
}

/// Exec mirror of [`is_space`].
pub fn space_char(c: char) -> (r: bool)
    ensures
        r == is_space(c),
{
    c == ' ' || c == '\t' || c == '\r' || c == '\n'
}

/// Exec mirror of [`is_digit`].
pub fn digit_char_test(c: char) -> (r: bool)
    ensures
        r == is_digit(c),
{
    let v = c as u32;
    48 <= v && v <= 57
}

/// Whether every character of `line` is whitespace.
pub fn blank(line: &str) -> (r: bool)
    ensures
        r == is_blank(line@),
{
    let len = line.unicode_len();
    let mut i: usize = 0;
    while i < len
        invariant
            len == line@.len(),
            i <= len,
            forall|k: int| 0 <= k < i ==> is_space(#[trigger] line@[k]),
        decreases len - i,
    {
        if !space_char(line.get_char(i)) {
            return false;
        }
        i = i + 1;
    }
    true
}

fn match_at(hay: &str, needle: &str, i: usize) -> (r: bool)
    requires
        i + needle@.len() <= hay@.len(),
        hay@.len() <= usize::MAX,
    ensures
        r == (hay@.subrange(i as int, i + needle@.len()) == needle@),
{
    let n = needle.unicode_len();
    let mut j: usize = 0;
    while j < n
        invariant
            n == needle@.len(),
            i + n <= hay@.len(),
            hay@.len() <= usize::MAX,
            j <= n,
            forall|l: int| 0 <= l < j ==> hay@[i + l] == needle@[l],
        decreases n - j,
    {
        if hay.get_char(i + j) != needle.get_char(j) {
            assert(hay@.subrange(i as int, i + needle@.len())[j as int] != needle@[j as int]);
            return false;
        }
        j = j + 1;
    }
    assert(hay@.subrange(i as int, i + needle@.len()) =~= needle@);
    true
}

/// Whether `needle` occurs anywhere inside `hay`.
pub fn contains_sub(hay: &str, needle: &str) -> (r: bool)
    ensures
        r == contains_seq(hay@, needle@),
{
    let h = hay.unicode_len();
    let n = needle.unicode_len();
    if n == 0 {
        assert(hay@.subrange(0, 0 + needle@.len() as int) =~= needle@);
        return true;
    }
    if n > h {
        return false;
    }
    let mut i: usize = 0;
    while i <= h - n
        invariant
            h == hay@.len(),
            n == needle@.len(),
            1 <= n <= h,
            i <= h - n + 1,
            forall|k: int| 0 <= k < i ==> #[trigger] hay@.subrange(k, k + n as int) != needle@,
        decreases h - i,
    {
        if match_at(hay, needle, i) {
            return true;
        }
        i = i + 1;
    }
    assert forall|k: int|
        0 <= k && k + needle@.len() <= hay@.len() implies #[trigger] hay@.subrange(
        k,
        k + needle@.len() as int,
    ) != needle@ by {
        assert(k < i);
    }
    false
}

/// Length of the run of non-whitespace characters at the head of `s`.
pub open spec fn token_len(s: Seq<char>) -> nat
    decreases s.len(),
{
    if s.len() == 0 || is_space(s[0]) {
        0
    } else {
        1 + token_len(s.skip(1))
    }
}

pub proof fn lemma_token_len_le(s: Seq<char>)
    ensures
        token_len(s) <= s.len(),
    decreases s.len(),
{
    if s.len() != 0 && !is_space(s[0]) {
        lemma_token_len_le(s.skip(1));
    }
}

/// If the first `k` characters are non-whitespace and the run stops at `k`,
/// then the head token has length exactly `k`.
pub proof fn lemma_token_len_exact(s: Seq<char>, k: int)
    requires
        0 <= k <= s.len(),
        forall|l: int| 0 <= l < k ==> !is_space(#[trigger] s[l]),
        k == s.len() || is_space(s[k]),
    ensures
        token_len(s) == k,
    decreases k,
{
    if k > 0 {
        lemma_token_len_exact(s.skip(1), k - 1);
    }
}

/// The whitespace-delimited tokens of `s`, in order.
pub open spec fn tokens(s: Seq<char>) -> Seq<Seq<char>>
    decreases s.len(),
    via tokens_dec
{
    if s.len() == 0 {
        Seq::empty()
    } else if is_space(s[0]) {
        tokens(s.skip(1))
    } else {
        seq![s.take(token_len(s) as int)] + tokens(s.skip(token_len(s) as int))
    }
}

#[via_fn]
proof fn tokens_dec(s: Seq<char>) {
    if s.len() > 0 && !is_space(s[0]) {
        lemma_token_len_le(s);
    }
}

/// Every character of `t` is an ASCII digit.
pub open spec fn all_digits(t: Seq<char>) -> bool {
    forall|i: int| 0 <= i < t.len() ==> is_digit(#[trigger] t[i])
}

/// The value of a digit string, most significant digit first.
pub open spec fn digits_val(t: Seq<char>) -> nat
    decreases t.len(),
{
    if t.len() == 0 {
        0
    } else {
        digits_val(t.drop_last()) * 10 + digit_val(t.last())
    }
}

/// A leading `+` sign is accepted and discarded, as the standard
/// unsigned decimal parser does.
pub open spec fn strip_sign(t: Seq<char>) -> Seq<char> {
    if t.len() > 0 && t[0] == '+' {
        t.skip(1)
    } else {
        t
    }
}

/// The value a whitespace-delimited token parses to as an unsigned
/// 32-bit decimal number, if it parses at all: an optional `+` sign,
/// then one or more digits, with a value that fits.
pub open spec fn token_value(t: Seq<char>) -> Option<u32> {
    let d = strip_sign(t);
    if d.len() > 0 && all_digits(d) && digits_val(d) <= u32::MAX {
        Some(digits_val(d) as u32)
    } else {
        None
    }
}

/// The value of the first token that parses as a number, if any.
pub open spec fn first_number(toks: Seq<Seq<char>>) -> Option<u32>
    decreases toks.len(),
{
    if toks.len() == 0 {
        None
    } else if token_value(toks[0]) is Some {
        token_value(toks[0])
    } else {
        first_number(toks.skip(1))
    }
}

/// The first whitespace-delimited token of `s` that parses as an
/// unsigned 32-bit decimal number, if any.
pub open spec fn spec_extract_number(s: Seq<char>) -> Option<u32> {
    first_number(tokens(s))
}

pub proof fn lemma_digits_val_snoc(t: Seq<char>, i: int)
    requires
        0 <= i < t.len(),
    ensures
        digits_val(t.take(i + 1)) == digits_val(t.take(i)) * 10 + digit_val(t[i]),
{
    assert(t.take(i + 1).drop_last() =~= t.take(i));
    assert(t.take(i + 1).last() == t[i]);
}

pub proof fn lemma_digits_val_prefix(t: Seq<char>, i: int)
    requires
        0 <= i <= t.len(),
    ensures
        digits_val(t.take(i)) <= digits_val(t),
    decreases t.len() - i,
{
    if i == t.len() {
        assert(t.take(i) =~= t);
    } else {
        lemma_digits_val_snoc(t, i);
        lemma_digits_val_prefix(t, i + 1);
    }
}

fn parse_token(s: &str, i: usize, j: usize) -> (r: Option<u32>)
    requires
        i < j <= s@.len() <= usize::MAX,
    ensures
        r == token_value(s@.subrange(i as int, j as int)),
{
    let ghost t = s@.subrange(i as int, j as int);
    let mut k = i;
    if s.get_char(i) == '+' {
        k = i + 1;
    }
    let ghost d = strip_sign(t);
    proof {
        assert(d =~= s@.subrange(k as int, j as int));
    }
    if k == j {
        return None;
    }
    let mut acc: u32 = 0;
    let mut m = k;
    while m < j
        invariant
            i <= k <= m <= j <= s@.len() <= usize::MAX,
            k < j,
            d == strip_sign(s@.subrange(i as int, j as int)),
            d == s@.subrange(k as int, j as int),
            acc == digits_val(d.take(m - k)),
            forall|l: int| 0 <= l < m - k ==> is_digit(#[trigger] d[l]),
        decreases j - m,
    {
        let c = s.get_char(m);
        if !digit_char_test(c) {
            assert(!is_digit(d[m - k]));
            return None;
        }
        let v = c as u32 - 48;
        assert(digit_val(d[m - k]) == v);
        if acc > (u32::MAX - v) / 10 {
            proof {
                lemma_digits_val_snoc(d, m - k);
                lemma_digits_val_prefix(d, m - k + 1);
            }
            return None;
        }
        proof {
            lemma_digits_val_snoc(d, m - k);
        }
        acc = acc * 10 + v;
        m = m + 1;
    }
    proof {
        assert(d.take(j - k) =~= d);
    }
    Some(acc)
}

/// The first whitespace-delimited token of `s` that parses as an
/// unsigned 32-bit decimal number, scanning left to right.
pub fn extract_number(s: &str) -> (r: Option<u32>)
    ensures
        r == spec_extract_number(s@),
{
    let len = s.unicode_len();
    proof {
        assert(s@.skip(0) =~= s@);
    }
    let mut i: usize = 0;
    while i < len
        invariant
            len == s@.len(),
            i <= len,
            first_number(tokens(s@.skip(i as int))) == spec_extract_number(s@),
        decreases len - i,
    {
        if space_char(s.get_char(i)) {
            proof {
                assert(s@.skip(i as int).skip(1) =~= s@.skip(i + 1));
            }
            i = i + 1;
        } else {
            let mut j = i + 1;
            while j < len && !space_char(s.get_char(j))
                invariant
                    len == s@.len(),
                    i < j <= len,
                    forall|l: int| i <= l < j ==> !is_space(#[trigger] s@[l]),
                decreases len - j,
            {
                j = j + 1;
            }
            let ghost rest = s@.skip(i as int);
            let ghost tok = s@.subrange(i as int, j as int);
            proof {
                assert(forall|l: int| 0 <= l < j - i ==> !is_space(#[trigger] rest[l]));
                lemma_token_len_exact(rest, j - i);
                assert(rest.take(j - i) =~= tok);
                assert(rest.skip(j - i) =~= s@.skip(j as int));
                assert(tokens(rest) == seq![tok] + tokens(s@.skip(j as int)));
            }
            let t = parse_token(s, i, j);
            if let Some(v) = t {
                proof {
                    assert(tokens(rest)[0] == tok);
                }
                return Some(v);
            }
            proof {
                assert(tokens(rest)[0] == tok);
                assert(tokens(rest).skip(1) =~= tokens(s@.skip(j as int)));
            }
            i = j;
        }
    }
    proof {
        assert(s@.skip(i as int) =~= Seq::<char>::empty());
    }
    None
}

/// The character for a single decimal digit.
pub open spec fn digit_char(d: nat) -> char {
    if d == 0 {
        '0'
    } else if d == 1 {
        '1'
    } else if d == 2 {
        '2'
    } else if d == 3 {
        '3'
    } else if d == 4 {
        '4'
    } else if d == 5 {
        '5'
    } else if d == 6 {
        '6'
    } else if d == 7 {
        '7'
    } else if d == 8 {
        '8'
    } else {
        '9'
    }
}

/// The decimal rendering of `n`, most significant digit first, with no
/// leading zeros (a single `'0'` for zero).
pub open spec fn dec_digits(n: nat) -> Seq<char>
    decreases n,
{
    if n < 10 {
        seq![digit_char(n)]
    } else {
        dec_digits(n / 10) + seq![digit_char(n % 10)]
    }
}

fn digit_str(d: u64) -> (r: &'static str)
    requires
        d < 10,
    ensures
        r@ == seq![digit_char(d as nat)],
{
    proof {
        reveal_strlit("0");
        reveal_strlit("1");
        reveal_strlit("2");
        reveal_strlit("3");
        reveal_strlit("4");
        reveal_strlit("5");
        reveal_strlit("6");
        reveal_strlit("7");
        reveal_strlit("8");
        reveal_strlit("9");
    }
    let r = if d == 0 {
        "0"
    } else if d == 1 {
        "1"
    } else if d == 2 {
        "2"
    } else if d == 3 {
        "3"
    } else if d == 4 {
        "4"
    } else if d == 5 {
        "5"
    } else if d == 6 {
        "6"
    } else if d == 7 {
        "7"
    } else if d == 8 {
        "8"
    } else {
        "9"
    };
    assert(r@ =~= seq![digit_char(d as nat)]);
    r
}

/// Render `n` in decimal.
pub fn u64_to_string(n: u64) -> (r: String)
    ensures
        r@ == dec_digits(n as nat),
    decreases n,
{
    if n < 10 {
        digit_str(n).to_owned()
    } else {
        let q = u64_to_string(n / 10);
        q.concat(digit_str(n % 10))
    }
}

/// An ASCII lowercase letter.
pub open spec fn is_ascii_lower(c: char) -> bool {
    97 <= c as u32 && c as u32 <= 122
}

/// The sequence of characters that uppercasing one character yields
/// under the full Unicode uppercase mapping.
pub uninterp spec fn upper_of(c: char) -> Seq<char>;

/// Relies on `char::to_uppercase`: yields the Unicode uppercase mapping
/// of `c` (one or more characters; `c` itself when there is no mapping),
/// a function of the character alone. On ASCII the mapping is the usual
/// one: a lowercase letter shifts down by 32, everything else is
/// unchanged.
#[verifier::external_body]
fn char_to_upper(c: char) -> (r: String)
    ensures
        r@ == upper_of(c),
        r@.len() >= 1,
        is_ascii_lower(c) ==> r@.len() == 1 && r@[0] as u32 == c as u32 - 32,
        (c as u32) < 128 && !is_ascii_lower(c) ==> r@ == seq![c],
{
    c.to_uppercase().collect()
}

/// `s` with its first character uppercased and the rest unchanged.
pub open spec fn spec_capitalize(s: Seq<char>) -> Seq<char> {
    if s.len() == 0 {
        Seq::empty()
    } else {
        upper_of(s[0]) + s.skip(1)
    }
}

/// Uppercase the first character of `s` (by the full Unicode mapping)
/// and keep the rest unchanged.
pub fn capitalize(s: &str) -> (r: String)
    ensures
        r@ == spec_capitalize(s@),
        s@.len() > 0 && is_ascii_lower(s@[0]) ==> r@.len() == s@.len() && r@[0] as u32 == s@[0]
            as u32 - 32 && r@.skip(1) == s@.skip(1),
{
    let len = s.unicode_len();
    if len == 0 {
        return String::new();
    }
    let first = s.get_char(0);
    let mut r = char_to_upper(first);
    let rest = s.substring_char(1, len);
    proof {
        assert(rest@ =~= s@.skip(1));
    }
    r.append(rest);
    proof {
        if is_ascii_lower(s@[0]) {
            assert(r@.skip(1) =~= s@.skip(1));
        }
    }
    r
}

} // verus!
