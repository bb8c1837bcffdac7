//! The library's general laws, stated and proved over the spec-level
//! transition functions that the executable functions are verified
//! against.

use vstd::prelude::*;
use crate::aggregator::{spec_apply, AggregatorState, SnapshotModel};
use crate::classifier::{spec_classify, LineEvent};
use crate::supervisor::{spec_cancel, spec_outcome, DownloadState, Outcome};

verus! {

/// A line the classifier ignores leaves the aggregator state unchanged
/// and emits no snapshot.
pub proof fn lemma_ignored_line_is_noop(st: AggregatorState, line: Seq<char>, elapsed_ms: u64)
    requires
        spec_classify(line) == LineEvent::Ignore,
    ensures
        spec_apply(st, spec_classify(line), elapsed_ms).0 == st,
        spec_apply(st, spec_classify(line), elapsed_ms).1 is None,
{
}

/// The emission baseline never decreases on any event other than a
/// discovery, which alone re-baselines it; and no such event emits a
/// snapshot whose percent lies below the baseline.
pub proof fn lemma_baseline_monotonic(st: AggregatorState, ev: LineEvent, elapsed_ms: u64)
    requires
        !(ev is CountDiscovered),
    ensures
        spec_apply(st, ev, elapsed_ms).0.last_emitted_percent >= st.last_emitted_percent,
        spec_apply(st, ev, elapsed_ms).1 matches Some(m) ==> m.percent >= st.last_emitted_percent,
{
}

/// A discovery event is the one re-baseline: it always sets the
/// baseline to 10 and emits a 10-percent snapshot, even where that is
/// a regression, resetting the scale for a newly discovered item list.
pub proof fn lemma_discovery_rebaselines(st: AggregatorState, n: u32, elapsed_ms: u64)
    ensures
        spec_apply(st, LineEvent::CountDiscovered(n), elapsed_ms).0.last_emitted_percent == 10,
        spec_apply(st, LineEvent::CountDiscovered(n), elapsed_ms).1 matches Some(m) && m.percent
            == 10,
{
}

/// The state after folding a whole sequence of events.
pub open spec fn run_events(st: AggregatorState, evs: Seq<LineEvent>, elapsed_ms: u64) -> AggregatorState
    decreases evs.len(),
{
    if evs.len() == 0 {
        st
    } else {
        run_events(spec_apply(st, evs[0], elapsed_ms).0, evs.skip(1), elapsed_ms)
    }
}

/// The snapshots emitted while folding a sequence of events, in order.
pub open spec fn emitted_snapshots(st: AggregatorState, evs: Seq<LineEvent>, elapsed_ms: u64) -> Seq<
    SnapshotModel,
>
    decreases evs.len(),
{
    if evs.len() == 0 {
        Seq::empty()
    } else {
        let head = match spec_apply(st, evs[0], elapsed_ms).1 {
            Some(m) => seq![m],
            None => Seq::empty(),
        };
        head + emitted_snapshots(spec_apply(st, evs[0], elapsed_ms).0, evs.skip(1), elapsed_ms)
    }
}

/// Every event of the sequence is a completed or a skipped item.
pub open spec fn all_item_events(evs: Seq<LineEvent>) -> bool {
    forall|i: int|
        0 <= i < evs.len() ==> #[trigger] evs[i] == LineEvent::ItemCompleted || evs[i]
            == LineEvent::ItemSkipped
}

/// Over any run of item events, the emitted percent values are strictly
/// increasing and all lie strictly above the baseline the run started
/// from: a snapshot is emitted exactly when its computed percentage
/// exceeds the last emitted one, so the deduplication suppresses every
/// repeat, and the baseline afterwards is the last emitted value.
pub proof fn lemma_emitted_percents_strictly_increase(
    st: AggregatorState,
    evs: Seq<LineEvent>,
    elapsed_ms: u64,
)
    requires
        all_item_events(evs),
    ensures
        ({
            let out = emitted_snapshots(st, evs, elapsed_ms);
            &&& forall|i: int, j: int|
                0 <= i < j < out.len() ==> #[trigger] out[i].percent < #[trigger] out[j].percent
            &&& forall|i: int| 0 <= i < out.len() ==> #[trigger] out[i].percent > st.last_emitted_percent
            &&& run_events(st, evs, elapsed_ms).last_emitted_percent == (if out.len() == 0 {
                st.last_emitted_percent as int
            } else {
                out.last().percent as int
            })
        }),
    decreases evs.len(),
{
    if evs.len() > 0 {
        let st1 = spec_apply(st, evs[0], elapsed_ms).0;
        let em0 = spec_apply(st, evs[0], elapsed_ms).1;
        let rest = emitted_snapshots(st1, evs.skip(1), elapsed_ms);
        let out = emitted_snapshots(st, evs, elapsed_ms);
        lemma_emitted_percents_strictly_increase(st1, evs.skip(1), elapsed_ms);
        match em0 {
            Some(m) => {
                assert(out == seq![m] + rest);
                assert(forall|i: int| 1 <= i < out.len() ==> out[i] == rest[i - 1]);
                assert(out[0] == m);
                assert(st1.last_emitted_percent == m.percent);
                assert(m.percent > st.last_emitted_percent);
                if rest.len() > 0 {
                    assert(out.last() == rest.last());
                }
            },
            None => {
                assert(out =~= rest);
                assert(st1.last_emitted_percent == st.last_emitted_percent);
            },
        }
    }
}

/// Cancelling the active job decides the outcome: after a successful
/// cancel request the job ends `Cancelled`, whatever exit status the
/// external process itself reports.
pub proof fn lemma_cancel_wins(st: DownloadState, exit_success: bool)
    requires
        st.active(),
    ensures
        spec_outcome(spec_cancel(st).0.is_cancelled, exit_success) == Outcome::Cancelled,
{
}

/// A first cancel of an active job succeeds and hands out the recorded
/// process id; an immediate second cancel finds no active job.
pub proof fn lemma_second_cancel_fails(st: DownloadState)
    requires
        st.active(),
    ensures
        spec_cancel(st).1 == Some(st.child_pid),
        spec_cancel(spec_cancel(st).0).1 is None,
{
}

} // verus!
