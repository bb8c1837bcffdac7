//! The job supervisor's decision logic: the single global job slot,
//! cancellation, terminal outcomes and the external tool's argument
//! list. The surrounding process I/O (spawning, signalling, waiting)
//! performs exactly what these functions decide.

use vstd::prelude::*;
use crate::aggregator::{
    final_speed_text, render_final_speed, AggregatorState, ProgressSnapshot, SnapshotModel,
    MAX_ELAPSED_MS,
};
use crate::text::{capitalize, dec_digits, spec_capitalize, u64_to_string};

verus! {

/// Why a control-surface call was refused or a job ended badly.
#[derive(Clone, Copy, Debug, PartialEq, Eq, Structural)]
pub enum JobError {
    /// `start` was called while a job is active.
    AlreadyRunning,
    /// `cancel` was called with no job active.
    NoActiveJob,
    /// The external tool could not be spawned.
    SpawnFailure,
    /// Capturing the tool's output pipes failed.
    IoFailure,
    /// The tool exited with a failure status not attributable to
    /// cancellation.
    ExecutionFailure,
}

/// How a finished job ended.
#[derive(Clone, Copy, Debug, PartialEq, Eq, Structural)]
pub enum Outcome {
    Completed,
    Cancelled,
    Failed,
}

/// What one job downloads.
#[derive(Clone, Copy, Debug, PartialEq, Eq, Structural)]
pub enum ContentKind {
    Track,
    Album,
    Playlist,
}

/// The single global job slot: at most one job is active process-wide.
#[derive(Clone, Copy, Debug, PartialEq, Eq, Structural)]
pub struct DownloadState {
    /// OS process id of the running external tool; 0 is the sentinel
    /// for "none recorded".
    pub child_pid: u32,
    /// Set by a cancel request and read once after process exit, to
    /// tell a cancelled job from a failed one.
    pub is_cancelled: bool,
}

impl DownloadState {
    /// The idle slot: no process recorded, no cancellation pending.
    pub open spec fn initial() -> DownloadState {
        DownloadState { child_pid: 0, is_cancelled: false }
    }

    /// A job is active exactly when a process id is recorded.
    pub open spec fn active(self) -> bool {
        self.child_pid > 0
    }
}

impl Default for DownloadState {
    fn default() -> (r: DownloadState)
        ensures
            r == DownloadState::initial(),
    {
        DownloadState { child_pid: 0, is_cancelled: false }
    }
}

/// What starting a job does to the slot: refused while one is active,
/// otherwise the cancellation flag is cleared.
pub open spec fn spec_begin(st: DownloadState) -> (DownloadState, Option<JobError>) {
    if st.active() {
        (st, Some(JobError::AlreadyRunning))
    } else {
        (DownloadState { is_cancelled: false, ..st }, None)
    }
}

/// What a cancel request does to the slot: with a recorded process id
/// it sets the flag, clears the id and hands the id out for
/// signalling; without one it is refused.
pub open spec fn spec_cancel(st: DownloadState) -> (DownloadState, Option<u32>) {
    if st.active() {
        (DownloadState { child_pid: 0, is_cancelled: true }, Some(st.child_pid))
    } else {
        (st, None)
    }
}

/// The outcome of a finished job: a requested cancellation wins over
/// the process's own exit status; otherwise the status decides.
pub open spec fn spec_outcome(cancelled: bool, exit_success: bool) -> Outcome {
    if cancelled {
        Outcome::Cancelled
    } else if exit_success {
        Outcome::Completed
    } else {
        Outcome::Failed
    }
}

/// The snapshot emitted when a job starts.
pub open spec fn starting_model() -> SnapshotModel {
    SnapshotModel {
        percent: 5,
        message: "Starting download..."@,
        current_track: 0,
        total_tracks: 0,
        speed: Seq::empty(),
    }
}

/// The one terminal snapshot a job ends with.
pub open spec fn terminal_model(outcome: Outcome, agg: AggregatorState, elapsed_ms: u64) -> SnapshotModel {
    match outcome {
        Outcome::Cancelled => SnapshotModel {
            percent: 0,
            message: "Download cancelled"@,
            current_track: 0,
            total_tracks: 0,
            speed: Seq::empty(),
        },
        Outcome::Completed => SnapshotModel {
            percent: 100,
            message: "Download complete!"@,
            current_track: agg.total_count,
            total_tracks: agg.total_count,
            speed: final_speed_text(agg.current_count, elapsed_ms),
        },
        Outcome::Failed => SnapshotModel {
            percent: 0,
            message: "Download failed. Please check the URL and try again."@,
            current_track: 0,
            total_tracks: 0,
            speed: Seq::empty(),
        },
    }
}

/// Claim the job slot for a new job. Refused with
/// [`JobError::AlreadyRunning`] while a job is active; otherwise the
/// cancellation flag is cleared for the new job.
pub fn begin_job(st: &mut DownloadState) -> (r: Result<(), JobError>)
    ensures
        *final(st) == spec_begin(*old(st)).0,
        r is Ok <==> !old(st).active(),
        r is Err ==> r == Err::<(), JobError>(JobError::AlreadyRunning) && *final(st) == *old(st),
{
    if st.child_pid > 0 {
        Err(JobError::AlreadyRunning)
    } else {
        st.is_cancelled = false;
        Ok(())
    }
}

/// Record the process id of the freshly spawned external tool.
pub fn record_spawn(st: &mut DownloadState, pid: u32)
    requires
        pid > 0,
    ensures
        final(st).child_pid == pid,
        final(st).is_cancelled == old(st).is_cancelled,
{
    st.child_pid = pid;
}

/// Request cancellation of the active job. On success the returned
/// process id is the one the caller must signal (the whole process
/// group, and the id directly as a fallback); the id is cleared at
/// once so a following start is not blocked, which makes a second
/// cancel fail with [`JobError::NoActiveJob`].
pub fn cancel_download(st: &mut DownloadState) -> (r: Result<u32, JobError>)
    ensures
        *final(st) == spec_cancel(*old(st)).0,
        r is Ok <==> old(st).active(),
        old(st).active() ==> r == Ok::<u32, JobError>(old(st).child_pid),
        !old(st).active() ==> r == Err::<u32, JobError>(JobError::NoActiveJob) && *final(st) == *old(
            st,
        ),
{
    if st.child_pid > 0 {
        let pid = st.child_pid;
        st.is_cancelled = true;
        st.child_pid = 0;
        Ok(pid)
    } else {
        Err(JobError::NoActiveJob)
    }
}

/// Close out a finished job: clear the recorded process id, decide the
/// outcome (a requested cancellation always wins, whatever the exit
/// status was) and produce the single terminal snapshot.
pub fn finish_job(st: &mut DownloadState, exit_success: bool, agg: &AggregatorState, elapsed_ms: u64) -> (r: (Outcome, ProgressSnapshot))
    requires
        elapsed_ms <= MAX_ELAPSED_MS,
    ensures
        final(st).child_pid == 0,
        final(st).is_cancelled == old(st).is_cancelled,
        r.0 == spec_outcome(old(st).is_cancelled, exit_success),
        r.1@ == terminal_model(r.0, *agg, elapsed_ms),
{
    st.child_pid = 0;
    if st.is_cancelled {
        (
            Outcome::Cancelled,
            ProgressSnapshot {
                percent: 0,
                message: "Download cancelled".to_owned(),
                current_track: 0,
                total_tracks: 0,
                speed: String::new(),
            },
        )
    } else if exit_success {
        let speed = render_final_speed(agg.current_count, elapsed_ms);
        (
            Outcome::Completed,
            ProgressSnapshot {
                percent: 100,
                message: "Download complete!".to_owned(),
                current_track: agg.total_count,
                total_tracks: agg.total_count,
                speed,
            },
        )
    } else {
        (
            Outcome::Failed,
            ProgressSnapshot {
                percent: 0,
                message: "Download failed. Please check the URL and try again.".to_owned(),
                current_track: 0,
                total_tracks: 0,
                speed: String::new(),
            },
        )
    }
}

/// The snapshot emitted right after the external tool is spawned.
pub fn starting_snapshot() -> (r: ProgressSnapshot)
    ensures
        r@ == starting_model(),
{
    ProgressSnapshot {
        percent: 5,
        message: "Starting download...".to_owned(),
        current_track: 0,
        total_tracks: 0,
        speed: String::new(),
    }
}

/// The lowercase name of a content kind, as the caller passes it in.
pub open spec fn spec_label(kind: ContentKind) -> Seq<char> {
    match kind {
        ContentKind::Track => "track"@,
        ContentKind::Album => "album"@,
        ContentKind::Playlist => "playlist"@,
    }
}

/// Exec mirror of [`spec_label`].
pub fn label(kind: ContentKind) -> (r: &'static str)
    ensures
        r@ == spec_label(kind),
{
    match kind {
        ContentKind::Track => "track",
        ContentKind::Album => "album",
        ContentKind::Playlist => "playlist",
    }
}

/// The argument list handed to the external tool: fixed output format,
/// a thread count for the multi-item kinds, then the target URL.
pub open spec fn spec_args(kind: ContentKind, threads: u32, url: Seq<char>) -> Seq<Seq<char>> {
    let base = seq!["--format"@, "mp3"@];
    let with_threads = if kind == ContentKind::Playlist || kind == ContentKind::Album {
        base + seq!["--threads"@, dec_digits(threads as nat)]
    } else {
        base
    };
    with_threads + seq![url]
}

/// Assemble the external tool's argument list.
pub fn build_args(kind: ContentKind, threads: u32, url: &str) -> (r: Vec<String>)
    ensures
        r.deep_view() == spec_args(kind, threads, url@),
{
    let mut r: Vec<String> = Vec::new();
    r.push("--format".to_owned());
    r.push("mp3".to_owned());
    if matches!(kind, ContentKind::Playlist | ContentKind::Album) {
        r.push("--threads".to_owned());
        r.push(u64_to_string(threads as u64));
    }
    r.push(url.to_owned());
    proof {
        assert(r.deep_view() =~~= spec_args(kind, threads, url@));
    }
    r
}

/// The message a completed job reports to its caller.
pub open spec fn success_message_model(kind: ContentKind) -> Seq<char> {
    spec_capitalize(spec_label(kind)) + " downloaded successfully!"@
}

/// Render the caller-facing success message for a completed job.
pub fn success_message(kind: ContentKind) -> (r: String)
    ensures
        r@ == success_message_model(kind),
{
    capitalize(label(kind)).concat(" downloaded successfully!")
}

/// The caller-facing result of a finished job, mirroring the terminal
/// outcome: a success message, or the fixed cancellation or failure
/// text.
pub fn outcome_message(outcome: Outcome, kind: ContentKind) -> (r: Result<String, String>)
    ensures
        outcome == Outcome::Completed ==> (r matches Ok(m) && m@ == success_message_model(kind)),
        outcome == Outcome::Cancelled ==> (r matches Err(m) && m@ == "Download cancelled by user"@),
        outcome == Outcome::Failed ==> (r matches Err(m) && m@
            == "Download failed. Please check the URL and try again."@),
{
    match outcome {
        Outcome::Completed => Ok(success_message(kind)),
        Outcome::Cancelled => Err("Download cancelled by user".to_owned()),
        Outcome::Failed => Err("Download failed. Please check the URL and try again.".to_owned()),
    }
}

/// The fixed text of each error, as surfaced to the caller.
pub open spec fn spec_error_text(e: JobError) -> Seq<char> {
    match e {
        JobError::AlreadyRunning => "A download is already running"@,
        JobError::NoActiveJob => "No active download to cancel"@,
        JobError::SpawnFailure => "Failed to run spotdl"@,
        JobError::IoFailure => "Failed to capture output"@,
        JobError::ExecutionFailure => "Download failed. Please check the URL and try again."@,
    }
}

impl JobError {
    /// The caller-facing text of this error.
    pub fn text(&self) -> (r: &'static str)
        ensures
            r@ == spec_error_text(*self),
    {
        match self {
            JobError::AlreadyRunning => "A download is already running",
            JobError::NoActiveJob => "No active download to cancel",
            JobError::SpawnFailure => "Failed to run spotdl",
            JobError::IoFailure => "Failed to capture output",
            JobError::ExecutionFailure => "Download failed. Please check the URL and try again.",
        }
    }
}

} // verus!
