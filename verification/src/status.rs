//! The status of an analysis and its textual form.

use crate::text::str_eq;
use vstd::prelude::*;
use vstd::string::*;

verus! {

/// The lifecycle state of an analysis. The variant names are the stored
/// and reported spelling.
#[allow(non_camel_case_types)]
#[derive(Clone, Copy, Debug, PartialEq, Eq, Structural)]
pub enum AnalysisStatus {
    unqueued,
    queued,
    running,
    terminated,
    failed,
}

/// The text that stands for a status in the store and in the API.
pub open spec fn status_text(s: AnalysisStatus) -> Seq<char> {
    match s {
        AnalysisStatus::unqueued => "unqueued"@,
        AnalysisStatus::queued => "queued"@,
        AnalysisStatus::running => "running"@,
        AnalysisStatus::terminated => "terminated"@,
        AnalysisStatus::failed => "failed"@,
    }
}

/// The status that a text stands for, if any.
pub open spec fn status_of_text(t: Seq<char>) -> Option<AnalysisStatus> {
    if t == "unqueued"@ {
        Some(AnalysisStatus::unqueued)
    } else if t == "queued"@ {
        Some(AnalysisStatus::queued)
    } else if t == "running"@ {
        Some(AnalysisStatus::running)
    } else if t == "terminated"@ {
        Some(AnalysisStatus::terminated)
    } else if t == "failed"@ {
        Some(AnalysisStatus::failed)
    } else {
        None
    }
}

impl AnalysisStatus {
    pub fn as_str(&self) -> (r: &'static str)
        ensures
            r@ == status_text(*self),
    {
        match self {
            AnalysisStatus::unqueued => "unqueued",
            AnalysisStatus::queued => "queued",
            AnalysisStatus::running => "running",
            AnalysisStatus::terminated => "terminated",
            AnalysisStatus::failed => "failed",
        }
    }
}

impl AnalysisStatus {
    /// Reads a status from its text; `None` for any other text.
    pub fn from_str(s: &str) -> (r: Option<AnalysisStatus>)
        ensures
            r == status_of_text(s@),
    {
        if str_eq(s, "unqueued") {
            Some(AnalysisStatus::unqueued)
        } else if str_eq(s, "queued") {
            Some(AnalysisStatus::queued)
        } else if str_eq(s, "running") {
            Some(AnalysisStatus::running)
        } else if str_eq(s, "terminated") {
            Some(AnalysisStatus::terminated)
        } else if str_eq(s, "failed") {
            Some(AnalysisStatus::failed)
        } else {
            None
        }
    }

    /// The text of the status as an owned string.
    pub fn to_string(&self) -> (r: String)
        ensures
            r@ == status_text(*self),
    {
        String::from_str(self.as_str())
    }

    /// Whether the status may stand in the store: every status but
    /// `running`, which lives only in the running set.
    pub open spec fn is_stored(self) -> bool {
        self != AnalysisStatus::running
    }
}

/// The status that a new or re-queued analysis gets: `queued` while the
/// number of queued rows is below the cap, else `unqueued`.
pub open spec fn admitted_status(queued_count: int, max_queue: int) -> AnalysisStatus {
    if queued_count < max_queue {
        AnalysisStatus::queued
    } else {
        AnalysisStatus::unqueued
    }
}

/// Whether the queue is full: the number of queued rows has reached the
/// cap.
pub fn is_queue_full(queued_count: u64, max_queue: usize) -> (full: bool)
    ensures
        full == (queued_count >= max_queue),
{
    queued_count >= max_queue as u64
}

/// The admission rule.
pub fn admission_status(queued_count: u64, max_queue: usize) -> (s: AnalysisStatus)
    ensures
        s == admitted_status(queued_count as int, max_queue as int),
{
    if is_queue_full(queued_count, max_queue) {
        AnalysisStatus::unqueued
    } else {
        AnalysisStatus::queued
    }
}

/// How the task that supervises a job ended.
#[derive(Clone, Copy, Debug, PartialEq, Eq, Structural)]
pub enum JobOutcome {
    /// The executor exited with code zero.
    Succeeded,
    /// The executor exited non-zero or could not be spawned, or an
    /// artifact could not be written.
    Failed,
    /// The supervising task itself did not end in order.
    Aborted,
}

/// The status in which a job ends: `terminated` on success, `failed`
/// otherwise.
pub open spec fn ended_status(outcome: JobOutcome) -> AnalysisStatus {
    match outcome {
        JobOutcome::Succeeded => AnalysisStatus::terminated,
        _ => AnalysisStatus::failed,
    }
}

/// The terminal status of a finished job.
pub fn terminal_status(outcome: JobOutcome) -> (s: AnalysisStatus)
    ensures
        s == ended_status(outcome),
{
    match outcome {
        JobOutcome::Succeeded => AnalysisStatus::terminated,
        JobOutcome::Failed => AnalysisStatus::failed,
        JobOutcome::Aborted => AnalysisStatus::failed,
    }
}

/// Whether a re-run of an analysis in that status keeps its row and its
/// identifier: so for `unqueued` and `failed`; any other status asks for a
/// new analysis.
pub open spec fn requeued_in_place(status: AnalysisStatus) -> bool {
    status == AnalysisStatus::unqueued || status == AnalysisStatus::failed
}

/// The re-run policy.
pub fn reruns_in_place(status: AnalysisStatus) -> (r: bool)
    ensures
        r == requeued_in_place(status),
{
    match status {
        AnalysisStatus::unqueued => true,
        AnalysisStatus::failed => true,
        AnalysisStatus::queued => false,
        AnalysisStatus::running => false,
        AnalysisStatus::terminated => false,
    }
}

/// No status that the admission rule or the end of a job gives is
/// `running`: that status is never written.
pub proof fn lemma_written_status_is_stored(queued_count: int, max_queue: int, outcome: JobOutcome)
    ensures
        admitted_status(queued_count, max_queue).is_stored(),
        ended_status(outcome).is_stored(),
{
}

/// The five texts are distinct, so reading back the text of a status
/// gives that status.
pub proof fn lemma_status_text_round_trip(s: AnalysisStatus)
    ensures
        status_of_text(status_text(s)) == Some(s),
{
    reveal_strlit("unqueued");
    reveal_strlit("queued");
    reveal_strlit("running");
    reveal_strlit("terminated");
    reveal_strlit("failed");
    assert("unqueued"@.len() == 8);
    assert("queued"@.len() == 6);
    assert("running"@.len() == 7);
    assert("terminated"@.len() == 10);
    assert("failed"@.len() == 6);
    assert("queued"@[0] == 'q');
    assert("failed"@[0] == 'f');
}

} // verus!
