use spotdl_progress::aggregator::{
    apply, process_output_line, render_final_speed, render_speed, AggregatorState,
};
use spotdl_progress::classifier::LineEvent;

#[test]
fn new_state_is_initial() {
    let st = AggregatorState::new();
    assert_eq!(st.current_count, 0);
    assert_eq!(st.total_count, 1);
    assert!(!st.total_known);
    assert_eq!(st.last_emitted_percent, 5);
}

#[test]
fn ignore_changes_nothing() {
    let mut st = AggregatorState::new();
    let before = st;
    let r = apply(&mut st, LineEvent::Ignore, 1000);
    assert!(r.is_none());
    assert_eq!(st, before);
}

#[test]
fn discovery_rebaselines_to_ten() {
    let mut st = AggregatorState::new();
    st.last_emitted_percent = 80;
    let r = apply(&mut st, LineEvent::CountDiscovered(12), 1000).unwrap();
    assert_eq!(r.percent, 10);
    assert_eq!(r.message, "Found 12 song(s), starting download...");
    assert_eq!(r.current_track, 0);
    assert_eq!(r.total_tracks, 12);
    assert_eq!(r.speed, "");
    assert_eq!(st.total_count, 12);
    assert!(st.total_known);
    assert_eq!(st.last_emitted_percent, 10);
}

#[test]
fn discovery_of_zero_clamps_total_to_one() {
    let mut st = AggregatorState::new();
    let r = apply(&mut st, LineEvent::CountDiscovered(0), 0).unwrap();
    assert_eq!(st.total_count, 1);
    assert_eq!(r.message, "Found 1 song(s), starting download...");
}

#[test]
fn discovery_line_without_count_is_noop() {
    // A discovery line whose count does not parse leaves everything
    // untouched: total stays at its prior default of 1.
    let mut st = AggregatorState::new();
    let before = st;
    let r = process_output_line(&mut st, "Found several songs", 500);
    assert!(r.is_none());
    assert_eq!(st, before);
    assert_eq!(st.total_count, 1);
}

#[test]
fn completed_item_emits_when_percent_rises() {
    let mut st = AggregatorState::new();
    apply(&mut st, LineEvent::CountDiscovered(12), 0);
    let r = apply(&mut st, LineEvent::ItemCompleted, 0).unwrap();
    // floor(1 / 12 * 85) = 7, so 10 + 7 = 17.
    assert_eq!(r.percent, 17);
    assert_eq!(r.message, "Downloading...");
    assert_eq!(r.current_track, 1);
    assert_eq!(r.total_tracks, 12);
    assert_eq!(st.last_emitted_percent, 17);
}

#[test]
fn skipped_item_uses_processing_message() {
    let mut st = AggregatorState::new();
    apply(&mut st, LineEvent::CountDiscovered(2), 0);
    let r = apply(&mut st, LineEvent::ItemSkipped, 0).unwrap();
    // floor(1 / 2 * 85) = 42, so 10 + 42 = 52.
    assert_eq!(r.percent, 52);
    assert_eq!(r.message, "Processing...");
}

#[test]
fn unknown_total_uses_midpoint_and_dedups() {
    // With no discovery event the total stays at its default of 1 and
    // every completion computes the fixed midpoint percent
    // min(10 + 50, 95) = 60; only the first emission gets through.
    let mut st = AggregatorState::new();
    let first = apply(&mut st, LineEvent::ItemCompleted, 0);
    assert_eq!(first.unwrap().percent, 60);
    for _ in 0..4 {
        let r = apply(&mut st, LineEvent::ItemCompleted, 0);
        assert!(r.is_none());
    }
    assert_eq!(st.current_count, 5);
    assert_eq!(st.last_emitted_percent, 60);
}

#[test]
fn percent_is_capped_at_95() {
    let mut st = AggregatorState::new();
    apply(&mut st, LineEvent::CountDiscovered(1), 0);
    let r = apply(&mut st, LineEvent::ItemCompleted, 0).unwrap();
    assert_eq!(r.percent, 95);
    let r2 = apply(&mut st, LineEvent::ItemCompleted, 0);
    assert!(r2.is_none());
}

#[test]
fn converting_peeks_at_ninety_without_rebaselining() {
    let mut st = AggregatorState::new();
    apply(&mut st, LineEvent::CountDiscovered(4), 0);
    apply(&mut st, LineEvent::ItemCompleted, 0);
    let before = st;
    let r = apply(&mut st, LineEvent::ConvertingNotice, 0).unwrap();
    assert_eq!(r.percent, 90);
    assert_eq!(r.message, "Converting to MP3...");
    assert_eq!(st, before);
}

#[test]
fn converting_keeps_higher_baseline() {
    let mut st = AggregatorState::new();
    st.last_emitted_percent = 95;
    let r = apply(&mut st, LineEvent::ConvertingNotice, 0).unwrap();
    assert_eq!(r.percent, 95);
}

#[test]
fn twelve_songs_progress_through_lines() {
    // One full job over raw lines: discovery, then twelve items, the
    // percents strictly increasing up to the 95 cap.
    let mut st = AggregatorState::new();
    let r = process_output_line(&mut st, "Found 12 songs", 0).unwrap();
    assert_eq!(r.percent, 10);
    let mut emitted = Vec::new();
    for i in 0..12 {
        let line = if i % 2 == 0 { "Downloaded: A" } else { "Skipping: B" };
        if let Some(s) = process_output_line(&mut st, line, 0) {
            emitted.push(s.percent);
        }
    }
    assert_eq!(st.current_count, 12);
    assert_eq!(st.total_count, 12);
    for w in emitted.windows(2) {
        assert!(w[0] < w[1]);
    }
    assert_eq!(*emitted.last().unwrap(), 95);
}

#[test]
fn speed_songs_per_minute() {
    // 10 songs in 60 seconds: 10.0 songs a minute.
    assert_eq!(render_speed(10, 60_000), "10.0 songs/min");
    // 5 songs in 120 seconds: 2.5 songs a minute.
    assert_eq!(render_speed(5, 120_000), "2.5 songs/min");
}

#[test]
fn speed_seconds_per_song() {
    // 1 song in 90 seconds is under one a minute: seconds per song.
    assert_eq!(render_speed(1, 90_000), "90s/song");
}

#[test]
fn speed_placeholder_before_first_item() {
    assert_eq!(render_speed(0, 5_000), "calculating...");
    assert_eq!(render_speed(3, 0), "calculating...");
}

#[test]
fn final_speed_is_empty_when_unmeasured() {
    assert_eq!(render_final_speed(0, 5_000), "");
    assert_eq!(render_final_speed(4, 60_000), "4.0 songs/min");
}
