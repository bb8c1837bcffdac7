use spotdl_progress::classifier::{classify, LineEvent};
use spotdl_progress::text::{capitalize, extract_number, u64_to_string};

#[test]
fn classify_found_count() {
    assert_eq!(classify("Found 12 songs"), LineEvent::CountDiscovered(12));
}

#[test]
fn classify_found_single_song() {
    assert_eq!(classify("Found 1 song"), LineEvent::CountDiscovered(1));
}

#[test]
fn classify_processing_query_with_count() {
    assert_eq!(classify("Processing query: 3 results"), LineEvent::CountDiscovered(3));
}

#[test]
fn classify_discovery_without_count_is_dropped() {
    assert_eq!(classify("Found several songs"), LineEvent::Ignore);
    assert_eq!(classify("Processing query"), LineEvent::Ignore);
}

#[test]
fn classify_downloaded() {
    assert_eq!(classify("Downloaded: Artist - Title"), LineEvent::ItemCompleted);
}

#[test]
fn classify_skipping() {
    assert_eq!(classify("Skipping: Artist - Title (already downloaded)"), LineEvent::ItemSkipped);
}

#[test]
fn classify_converting() {
    assert_eq!(classify("Converting files"), LineEvent::ConvertingNotice);
}

#[test]
fn classify_processing_without_query() {
    assert_eq!(classify("Processing Artist - Title"), LineEvent::ConvertingNotice);
}

#[test]
fn classify_blank_lines() {
    assert_eq!(classify(""), LineEvent::Ignore);
    assert_eq!(classify("   \t  "), LineEvent::Ignore);
}

#[test]
fn classify_unrecognized() {
    assert_eq!(classify("some unrelated output"), LineEvent::Ignore);
}

#[test]
fn classify_is_case_sensitive() {
    assert_eq!(classify("downloaded: x"), LineEvent::Ignore);
}

#[test]
fn extract_number_first_token_wins() {
    assert_eq!(extract_number("abc 42 def 7"), Some(42));
}

#[test]
fn extract_number_none() {
    assert_eq!(extract_number("no digits here"), None);
    assert_eq!(extract_number(""), None);
}

#[test]
fn extract_number_plus_sign() {
    assert_eq!(extract_number("+7"), Some(7));
}

#[test]
fn extract_number_skips_overflowing_token() {
    assert_eq!(extract_number("99999999999999999999 42"), Some(42));
}

#[test]
fn extract_number_rejects_mixed_tokens() {
    assert_eq!(extract_number("12, 13"), Some(13));
    assert_eq!(extract_number("v1.2 x9"), None);
}

#[test]
fn extract_number_max_value() {
    assert_eq!(extract_number("4294967295"), Some(4294967295));
    assert_eq!(extract_number("4294967296"), None);
}

#[test]
fn u64_to_string_renders_decimal() {
    assert_eq!(u64_to_string(0), "0");
    assert_eq!(u64_to_string(7), "7");
    assert_eq!(u64_to_string(120), "120");
    assert_eq!(u64_to_string(u64::MAX), "18446744073709551615");
}

#[test]
fn capitalize_ascii() {
    assert_eq!(capitalize("track"), "Track");
    assert_eq!(capitalize("album"), "Album");
    assert_eq!(capitalize("playlist"), "Playlist");
}

#[test]
fn capitalize_empty_and_unmapped() {
    assert_eq!(capitalize(""), "");
    assert_eq!(capitalize("Track"), "Track");
    assert_eq!(capitalize("1two"), "1two");
}

#[test]
fn capitalize_unicode_first_char() {
    assert_eq!(capitalize("über"), "Über");
}
