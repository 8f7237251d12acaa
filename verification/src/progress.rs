//! The event stream a JSON job produces, and the per-job state the
//! timeout supervisor drives.
//!
//! A job's stream is an ordered sequence of `Progress` events followed by
//! exactly one terminal `Result`; the specs here say what a well-formed
//! stream is, and the supervisor state makes the `active: true -> false`
//! transition idempotent.

use vstd::prelude::*;

verus! {

/// One event of a JSON job's stream: intermediate progress in percent,
/// or the single terminal result text.
pub enum ProcessUpdate {
    Progress(usize),
    Result(String),
}

impl ProcessUpdate {
    /// True of the terminal variant.
    pub open spec fn spec_is_result(self) -> bool {
        self is Result
    }

    /// True of the progress variant.
    pub open spec fn spec_is_progress(self) -> bool {
        self is Progress
    }

    /// The progress percentage, when this is a `Progress` event.
    pub open spec fn spec_progress(self) -> int
        recommends
            self is Progress,
    {
        self->Progress_0 as int
    }

    /// The terminal text, when this is a `Result` event.
    pub open spec fn spec_text(self) -> Seq<char>
        recommends
            self is Result,
    {
        self->Result_0@
    }

    pub fn is_result(&self) -> (r: bool)
        ensures
            r == self.spec_is_result(),
    {
        match self {
            ProcessUpdate::Result(_) => true,
            ProcessUpdate::Progress(_) => false,
        }
    }

    pub fn progress_value(&self) -> (r: Option<usize>)
        ensures
            match r {
                Some(p) => *self matches ProcessUpdate::Progress(q) && p == q,
                None => *self is Result,
            },
    {
        match self {
            ProcessUpdate::Progress(p) => Some(*p),
            ProcessUpdate::Result(_) => None,
        }
    }

    pub fn result_text(&self) -> (r: Option<&String>)
        ensures
            match r {
                Some(t) => *self matches ProcessUpdate::Result(u) && t@ == u@,
                None => *self is Progress,
            },
    {
        match self {
            ProcessUpdate::Result(t) => Some(t),
            ProcessUpdate::Progress(_) => None,
        }
    }
}

/// A well-formed job stream: at least one event, every event before the
/// last is a `Progress` in [0, 100] with non-decreasing values, and the
/// last event is the job's single terminal `Result`.
pub open spec fn stream_wf(s: Seq<ProcessUpdate>) -> bool {
    &&& s.len() >= 1
    &&& s.last() is Result
    &&& forall|i: int| 0 <= i < s.len() - 1 ==> (#[trigger] s[i]) is Progress
    &&& forall|i: int|
        0 <= i < s.len() - 1 ==> 0 <= (#[trigger] s[i]).spec_progress() <= 100
    &&& forall|i: int, j: int|
        0 <= i <= j < s.len() - 1 ==> (#[trigger] s[i]).spec_progress() <= (
        #[trigger] s[j]).spec_progress()
}

/// A stream whose only event is the terminal result: the synchronous
/// shape, with no `Progress` at all.
pub open spec fn stream_sync(s: Seq<ProcessUpdate>, text: Seq<char>) -> bool {
    s.len() == 1 && s[0] is Result && s[0].spec_text() == text
}

/// Per-job supervisor state. The GUI adapter creates one when it submits
/// a job; the first terminal event and the timeout expiry race to clear
/// `active`, and whichever comes second must be ignored.
pub struct JobState {
    pub active: bool,
}

impl JobState {
    /// A freshly submitted job is active.
    pub fn new() -> (r: JobState)
        ensures
            r.active,
    {
        JobState { active: true }
    }

    /// Called on the worker's terminal event. Returns true when the event
    /// must be delivered: only the first terminal claim per job wins, so
    /// the clearing of `active` is idempotent.
    pub fn claim_terminal(&mut self) -> (deliver: bool)
        ensures
            deliver == old(self).active,
            !final(self).active,
    {
        let was = self.active;
        self.active = false;
        was
    }

    /// Called on timeout expiry. Returns the synthesized terminal text
    /// when the job was still active, and `None` when a terminal event
    /// already claimed the job.
    pub fn claim_timeout(&mut self) -> (r: Option<String>)
        ensures
            !final(self).active,
            match r {
                Some(t) => old(self).active && t@ == timeout_text(),
                None => !old(self).active,
            },
    {
        let was = self.active;
        self.active = false;
        if was {
            Some(timeout_message())
        } else {
            None
        }
    }
}

/// The text of the terminal result the supervisor synthesizes on expiry.
pub open spec fn timeout_text() -> Seq<char> {
    "timeout: input may be too large or malformed; try splitting"@
}

/// The terminal result text the timeout supervisor injects.
pub fn timeout_message() -> (r: String)
    ensures
        r@ == timeout_text(),
{
    String::from_str("timeout: input may be too large or malformed; try splitting")
}

/// The timeout budget, in seconds, the adapter arms for every Medium or
/// Large job.
pub fn timeout_seconds() -> (r: u64)
    ensures
        r == 120,
{
    120
}

} // verus!
