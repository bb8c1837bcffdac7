//! The progress aggregator: a stateful reducer that folds classified
//! line events into a stream of monotonic progress snapshots.

use vstd::prelude::*;
use crate::classifier::{classify, spec_classify, LineEvent};
use crate::text::dec_digits;
use crate::text::u64_to_string;

verus! {

/// Upper bound on the elapsed time (in milliseconds) the throughput
/// arithmetic accepts; it keeps every intermediate sum inside `u64`.
/// Two to the sixtieth milliseconds is over thirty million years.
pub const MAX_ELAPSED_MS: u64 = 0x1000_0000_0000_0000;

/// The shared progress state of one job.
#[derive(Clone, Copy, Debug, PartialEq, Eq, Structural)]
pub struct AggregatorState {
    /// How many items have completed or been skipped so far.
    pub current_count: u32,
    /// The announced number of items, clamped to at least 1.
    pub total_count: u32,
    /// Whether a discovery event announced the total; without one the
    /// per-item progress falls back to a fixed midpoint.
    pub total_known: bool,
    /// The percent value of the last emitted snapshot; emissions never
    /// regress below it except for the discovery re-baseline.
    pub last_emitted_percent: u32,
}

impl AggregatorState {
    /// The state a job starts in: nothing counted, total unknown and
    /// clamped to 1, baseline at the initial snapshot's 5 percent.
    pub open spec fn initial() -> AggregatorState {
        AggregatorState {
            current_count: 0,
            total_count: 1,
            total_known: false,
            last_emitted_percent: 5,
        }
    }

    /// The type's invariant: the total is never zero, so the
    /// progress-fraction arithmetic cannot divide by zero.
    pub open spec fn wf(self) -> bool {
        self.total_count >= 1
    }

    pub fn new() -> (r: AggregatorState)
        ensures
            r == AggregatorState::initial(),
            r.wf(),
    {
        AggregatorState { current_count: 0, total_count: 1, total_known: false, last_emitted_percent: 5 }
    }
}

/// The mathematical content of a progress snapshot.
pub ghost struct SnapshotModel {
    pub percent: u32,
    pub message: Seq<char>,
    pub current_track: u32,
    pub total_tracks: u32,
    pub speed: Seq<char>,
}

/// An immutable progress report, as handed to the progress sink.
#[derive(Clone, Debug)]
pub struct ProgressSnapshot {
    /// Overall progress, 0 to 100.
    pub percent: u32,
    /// A short human-readable status line.
    pub message: String,
    /// How many items are done.
    pub current_track: u32,
    /// How many items there are in all (at least 1 once announced).
    pub total_tracks: u32,
    /// Advisory throughput text; never used in any decision.
    pub speed: String,
}

impl View for ProgressSnapshot {
    type V = SnapshotModel;

    open spec fn view(&self) -> SnapshotModel {
        SnapshotModel {
            percent: self.percent,
            message: self.message@,
            current_track: self.current_track,
            total_tracks: self.total_tracks,
            speed: self.speed@,
        }
    }
}

/// The message of a discovery snapshot.
pub open spec fn found_message(total: u32) -> Seq<char> {
    "Found "@ + dec_digits(total as nat) + " song(s), starting download..."@
}

/// Throughput in tenths of songs per minute, rounded down.
pub open spec fn tenths_per_min(current: u32, elapsed_ms: u64) -> int {
    (current * 600000) / (elapsed_ms as int)
}

/// Whole seconds one song takes, rounded to nearest.
pub open spec fn secs_per_song(current: u32, elapsed_ms: u64) -> int {
    (elapsed_ms + 500 * current) / (1000 * current)
}

/// The throughput text when at least one item is done and time has
/// passed: songs per minute when the rate reaches one, else seconds
/// per song.
pub open spec fn speed_core(current: u32, elapsed_ms: u64) -> Seq<char> {
    let t = tenths_per_min(current, elapsed_ms);
    if t >= 10 {
        dec_digits((t / 10) as nat) + "."@ + dec_digits((t % 10) as nat) + " songs/min"@
    } else {
        dec_digits(secs_per_song(current, elapsed_ms) as nat) + "s/song"@
    }
}

/// The throughput text shown on in-flight snapshots.
pub open spec fn speed_text(current: u32, elapsed_ms: u64) -> Seq<char> {
    if current > 0 && elapsed_ms > 0 {
        speed_core(current, elapsed_ms)
    } else {
        "calculating..."@
    }
}

/// The throughput text shown on the terminal snapshot: as the in-flight
/// one, but empty instead of a placeholder when nothing was measured.
pub open spec fn final_speed_text(current: u32, elapsed_ms: u64) -> Seq<char> {
    if current > 0 && elapsed_ms > 0 {
        speed_core(current, elapsed_ms)
    } else {
        Seq::empty()
    }
}

/// The percent a snapshot would carry after `current` of `total` items:
/// 10 for the discovery phase plus a downloading share of up to 85,
/// capped at 95; a fixed midpoint share of 50 when no total was
/// announced.
pub open spec fn raw_percent(current: u32, total: u32, known: bool) -> int {
    let dp = if known {
        (current * 85) / (total as int)
    } else {
        50
    };
    if 10 + dp > 95 {
        95
    } else {
        10 + dp
    }
}

/// One completed or skipped item: count it, and emit a snapshot only
/// when the new percent strictly exceeds the last emitted one.
pub open spec fn item_step(st: AggregatorState, elapsed_ms: u64, msg: Seq<char>) -> (
    AggregatorState,
    Option<SnapshotModel>,
) {
    let cur = (st.current_count + 1) as u32;
    let p = raw_percent(cur, st.total_count, st.total_known);
    if p > st.last_emitted_percent {
        (
            AggregatorState {
                current_count: cur,
                last_emitted_percent: p as u32,
                ..st
            },
            Some(
                SnapshotModel {
                    percent: p as u32,
                    message: msg,
                    current_track: cur,
                    total_tracks: st.total_count,
                    speed: speed_text(st.current_count, elapsed_ms),
                },
            ),
        )
    } else {
        (AggregatorState { current_count: cur, ..st }, None)
    }
}

/// The aggregator's transition function: the state after one event and
/// the snapshot it emits, if any.
pub open spec fn spec_apply(st: AggregatorState, ev: LineEvent, elapsed_ms: u64) -> (
    AggregatorState,
    Option<SnapshotModel>,
) {
    match ev {
        LineEvent::Ignore => (st, None),
        LineEvent::CountDiscovered(n) => {
            let total = if n >= 1 {
                n
            } else {
                1u32
            };
            (
                AggregatorState { total_count: total, total_known: true, last_emitted_percent: 10, ..st },
                Some(
                    SnapshotModel {
                        percent: 10,
                        message: found_message(total),
                        current_track: 0,
                        total_tracks: total,
                        speed: Seq::empty(),
                    },
                ),
            )
        },
        LineEvent::ItemCompleted => item_step(st, elapsed_ms, "Downloading..."@),
        LineEvent::ItemSkipped => item_step(st, elapsed_ms, "Processing..."@),
        LineEvent::ConvertingNotice => {
            let p = if st.last_emitted_percent >= 90 {
                st.last_emitted_percent
            } else {
                90u32
            };
            (
                st,
                Some(
                    SnapshotModel {
                        percent: p,
                        message: "Converting to MP3..."@,
                        current_track: st.current_count,
                        total_tracks: st.total_count,
                        speed: speed_text(st.current_count, elapsed_ms),
                    },
                ),
            )
        },
    }
}

fn render_speed_core(current: u32, elapsed_ms: u64) -> (r: String)
    requires
        current > 0,
        0 < elapsed_ms <= MAX_ELAPSED_MS,
    ensures
        r@ == speed_core(current, elapsed_ms),
{
    let t: u64 = (current as u64) * 600000 / elapsed_ms;
    if t >= 10 {
        let a = u64_to_string(t / 10);
        let b = u64_to_string(t % 10);
        a.concat(".").concat(b.as_str()).concat(" songs/min")
    } else {
        let secs: u64 = (elapsed_ms + 500 * (current as u64)) / (1000 * (current as u64));
        u64_to_string(secs).concat("s/song")
    }
}

/// Render the advisory throughput text for in-flight snapshots.
pub fn render_speed(current: u32, elapsed_ms: u64) -> (r: String)
    requires
        elapsed_ms <= MAX_ELAPSED_MS,
    ensures
        r@ == speed_text(current, elapsed_ms),
{
    if current > 0 && elapsed_ms > 0 {
        render_speed_core(current, elapsed_ms)
    } else {
        "calculating...".to_owned()
    }
}

/// Render the throughput text for the terminal snapshot.
pub fn render_final_speed(current: u32, elapsed_ms: u64) -> (r: String)
    requires
        elapsed_ms <= MAX_ELAPSED_MS,
    ensures
        r@ == final_speed_text(current, elapsed_ms),
{
    if current > 0 && elapsed_ms > 0 {
        render_speed_core(current, elapsed_ms)
    } else {
        String::new()
    }
}

/// Fold one event into the aggregator state, returning the snapshot to
/// emit, if the event warrants one. The behaviour is exactly
/// [`spec_apply`].
pub fn apply(state: &mut AggregatorState, event: LineEvent, elapsed_ms: u64) -> (r: Option<
    ProgressSnapshot,
>)
    requires
        old(state).wf(),
        old(state).current_count < u32::MAX,
        elapsed_ms <= MAX_ELAPSED_MS,
    ensures
        final(state).wf(),
        *final(state) == spec_apply(*old(state), event, elapsed_ms).0,
        r is Some <==> spec_apply(*old(state), event, elapsed_ms).1 is Some,
        r matches Some(s) ==> Some(s@) == spec_apply(*old(state), event, elapsed_ms).1,
{
    match event {
        LineEvent::Ignore => None,
        LineEvent::CountDiscovered(n) => {
            let total = if n >= 1 {
                n
            } else {
                1
            };
            state.total_count = total;
            state.total_known = true;
            state.last_emitted_percent = 10;
            let message = "Found ".to_owned().concat(
                u64_to_string(total as u64).as_str(),
            ).concat(" song(s), starting download...");
            Some(
                ProgressSnapshot {
                    percent: 10,
                    message,
                    current_track: 0,
                    total_tracks: total,
                    speed: String::new(),
                },
            )
        },
        LineEvent::ItemCompleted => {
            item_apply(state, elapsed_ms, "Downloading...")
        },
        LineEvent::ItemSkipped => {
            item_apply(state, elapsed_ms, "Processing...")
        },
        LineEvent::ConvertingNotice => {
            let speed = render_speed(state.current_count, elapsed_ms);
            let p = if state.last_emitted_percent >= 90 {
                state.last_emitted_percent
            } else {
                90
            };
            Some(
                ProgressSnapshot {
                    percent: p,
                    message: "Converting to MP3...".to_owned(),
                    current_track: state.current_count,
                    total_tracks: state.total_count,
                    speed,
                },
            )
        },
    }
}

fn item_apply(state: &mut AggregatorState, elapsed_ms: u64, msg: &str) -> (r: Option<
    ProgressSnapshot,
>)
    requires
        old(state).wf(),
        old(state).current_count < u32::MAX,
        elapsed_ms <= MAX_ELAPSED_MS,
    ensures
        final(state).wf(),
        *final(state) == item_step(*old(state), elapsed_ms, msg@).0,
        r is Some <==> item_step(*old(state), elapsed_ms, msg@).1 is Some,
        r matches Some(s) ==> Some(s@) == item_step(*old(state), elapsed_ms, msg@).1,
{
    let speed = render_speed(state.current_count, elapsed_ms);
    let cur = state.current_count + 1;
    let praw: u64 = if state.total_known {
        10 + ((cur as u64) * 85) / (state.total_count as u64)
    } else {
        60
    };
    let p: u32 = if praw > 95 {
        95
    } else {
        praw as u32
    };
    assert(p == raw_percent(cur, state.total_count, state.total_known));
    state.current_count = cur;
    if p > state.last_emitted_percent {
        state.last_emitted_percent = p;
        Some(
            ProgressSnapshot {
                percent: p,
                message: msg.to_owned(),
                current_track: cur,
                total_tracks: state.total_count,
                speed,
            },
        )
    } else {
        None
    }
}

/// Classify one line of output and fold the event into the state; the
/// composition of [`classify`] and [`apply`], as one output stream's
/// pump performs it per line.
pub fn process_output_line(state: &mut AggregatorState, line: &str, elapsed_ms: u64) -> (r: Option<
    ProgressSnapshot,
>)
    requires
        old(state).wf(),
        old(state).current_count < u32::MAX,
        elapsed_ms <= MAX_ELAPSED_MS,
    ensures
        final(state).wf(),
        *final(state) == spec_apply(*old(state), spec_classify(line@), elapsed_ms).0,
        r is Some <==> spec_apply(*old(state), spec_classify(line@), elapsed_ms).1 is Some,
        r matches Some(s) ==> Some(s@) == spec_apply(*old(state), spec_classify(line@), elapsed_ms).1,
{
    let ev = classify(line);
    apply(state, ev, elapsed_ms)
}

} // verus!
