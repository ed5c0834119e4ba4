//! The phases of a download run.

use vstd::prelude::*;

verus! {

/// Why a run failed.
#[derive(Debug, Clone, Copy, PartialEq, Eq)]
pub enum Failure {
    /// A package or the file manifest could not be fetched.
    Download,
    /// A payload does not have the checksum on record.
    ChecksumMismatch,
    /// A package could not be unpacked.
    Extraction,
    /// The file manifest could not be written into the staging directory.
    Write,
}

/// Where a run stands.
#[derive(Debug, Clone, Copy, PartialEq, Eq)]
pub enum RunState {
    Idle,
    /// Every package is being fetched.
    Fetching,
    /// Every fetch has returned; the payloads are held against the manifest.
    Validating,
    /// Every payload is valid; the jobs are handed out.
    Dispatching,
    /// `pending` jobs are still at work. `failure` is the first failure seen
    /// since the jobs were handed out, and `written` tells whether the write
    /// of the file manifest has ended.
    AwaitingExtraction { pending: usize, failure: Option<Failure>, written: bool },
    Done,
    Failed(Failure),
}

/// What the outside world reports to a run.
#[derive(Debug, Clone, Copy, PartialEq, Eq)]
pub enum Event {
    /// The run is asked to begin.
    Start,
    /// Every fetch has returned; `ok` tells whether each brought its payload.
    Fetched { ok: bool },
    /// The payloads were validated; `ok` tells whether all of them passed.
    Validated { ok: bool },
    /// `jobs` extraction jobs were started.
    Dispatched { jobs: usize },
    /// One extraction job has ended.
    JobFinished { ok: bool },
    /// The write of the file manifest has ended.
    ManifestWritten { ok: bool },
}

/// The first of two failures.
pub open spec fn first_failure(seen: Option<Failure>, now: Option<Failure>) -> Option<Failure> {
    if seen is Some {
        seen
    } else {
        now
    }
}

/// A run that waits for nothing any more has ended.
pub open spec fn settled(pending: usize, failure: Option<Failure>, written: bool) -> RunState {
    if pending == 0 && written {
        match failure {
            None => RunState::Done,
            Some(f) => RunState::Failed(f),
        }
    } else {
        RunState::AwaitingExtraction { pending, failure, written }
    }
}

impl RunState {
    /// The run has ended, well or badly.
    pub open spec fn is_terminal(self) -> bool {
        self is Done || self is Failed
    }

    /// The state that follows `self` on `event`. An event that does not
    /// belong to the phase leaves the state as it is.
    pub open spec fn next(self, event: Event) -> RunState {
        match (self, event) {
            (RunState::Idle, Event::Start) => RunState::Fetching,
            (RunState::Fetching, Event::Fetched { ok }) => if ok {
                RunState::Validating
            } else {
                RunState::Failed(Failure::Download)
            },
            (RunState::Validating, Event::Validated { ok }) => if ok {
                RunState::Dispatching
            } else {
                RunState::Failed(Failure::ChecksumMismatch)
            },
            (RunState::Dispatching, Event::Dispatched { jobs }) => settled(jobs, None, false),
            (
                RunState::AwaitingExtraction { pending, failure, written },
                Event::JobFinished { ok },
            ) => if pending > 0 {
                settled(
                    (pending - 1) as usize,
                    first_failure(failure, if ok { None } else { Some(Failure::Extraction) }),
                    written,
                )
            } else {
                self
            },
            (
                RunState::AwaitingExtraction { pending, failure, written },
                Event::ManifestWritten { ok },
            ) => if !written {
                settled(
                    pending,
                    first_failure(failure, if ok { None } else { Some(Failure::Write) }),
                    true,
                )
            } else {
                self
            },
            _ => self,
        }
    }

    /// The state after a run of events.
    pub open spec fn after(self, events: Seq<Event>) -> RunState
        decreases events.len(),
    {
        if events.len() == 0 {
            self
        } else {
            self.after(events.drop_last()).next(events.last())
        }
    }

    /// Jobs are running or may have run: only a state that waits for them.
    pub open spec fn has_dispatched(self) -> bool {
        self is AwaitingExtraction
    }

    /// Takes the run from one state to the next.
    pub fn step(self, event: Event) -> (r: RunState)
        ensures
            r == self.next(event),
    {
        match self {
            RunState::Idle => match event {
                Event::Start => RunState::Fetching,
                _ => self,
            },
            RunState::Fetching => match event {
                Event::Fetched { ok: true } => RunState::Validating,
                Event::Fetched { ok: false } => RunState::Failed(Failure::Download),
                _ => self,
            },
            RunState::Validating => match event {
                Event::Validated { ok: true } => RunState::Dispatching,
                Event::Validated { ok: false } => RunState::Failed(Failure::ChecksumMismatch),
                _ => self,
            },
            RunState::Dispatching => match event {
                Event::Dispatched { jobs } => settle(jobs, None, false),
                _ => self,
            },
            RunState::AwaitingExtraction { pending, failure, written } => match event {
                Event::JobFinished { ok } => {
                    if pending > 0 {
                        let now = if ok { None } else { Some(Failure::Extraction) };
                        settle(pending - 1, earlier(failure, now), written)
                    } else {
                        self
                    }
                },
                Event::ManifestWritten { ok } => {
                    if !written {
                        let now = if ok { None } else { Some(Failure::Write) };
                        settle(pending, earlier(failure, now), true)
                    } else {
                        self
                    }
                },
                _ => self,
            },
            RunState::Done => self,
            RunState::Failed(_) => self,
        }
    }
}

fn earlier(seen: Option<Failure>, now: Option<Failure>) -> (r: Option<Failure>)
    ensures
        r == first_failure(seen, now),
{
    match seen {
        Some(_) => seen,
        None => now,
    }
}

fn settle(pending: usize, failure: Option<Failure>, written: bool) -> (r: RunState)
    ensures
        r == settled(pending, failure, written),
{
    if pending == 0 && written {
        match failure {
            None => RunState::Done,
            Some(f) => RunState::Failed(f),
        }
    } else {
        RunState::AwaitingExtraction { pending, failure, written }
    }
}

/// A run that has ended stays as it is, whatever is reported to it.
pub proof fn lemma_terminal_states_absorb(state: RunState, events: Seq<Event>)
    requires
        state.is_terminal(),
    ensures
        state.after(events) == state,
    decreases events.len(),
{
    if events.len() > 0 {
        lemma_terminal_states_absorb(state, events.drop_last());
    }
}

/// A payload that fails validation ends the run at once, and whatever is
/// reported afterwards, no extraction job is ever handed out.
pub proof fn lemma_checksum_mismatch_dispatches_nothing(events: Seq<Event>)
    ensures
        RunState::Validating.next(Event::Validated { ok: false }) == RunState::Failed(
            Failure::ChecksumMismatch,
        ),
        !RunState::Validating.next(Event::Validated { ok: false }).after(events).has_dispatched(),
{
    lemma_terminal_states_absorb(RunState::Failed(Failure::ChecksumMismatch), events);
}

/// Jobs are handed out only by a run whose payloads all passed validation:
/// a state comes to wait for jobs only from the dispatching phase, which is
/// entered only on a validation that passed.
pub proof fn lemma_dispatch_follows_validation(state: RunState, event: Event)
    ensures
        !state.has_dispatched() && state.next(event).has_dispatched() ==> state is Dispatching,
        !(state is Dispatching) && state.next(event) is Dispatching ==> state is Validating
            && event == (Event::Validated { ok: true }),
        !(state is Done) && state.next(event) is Done ==> state is AwaitingExtraction,
{
}

/// A run ends well only when every job has ended, none of them failed and
/// the file manifest is written.
pub proof fn lemma_done_means_drained(pending: usize, failure: Option<Failure>, written: bool, event: Event)
    requires
        (RunState::AwaitingExtraction { pending, failure, written }).next(event) is Done,
    ensures
        failure is None,
        pending <= 1,
        pending == 1 ==> written && event == (Event::JobFinished { ok: true }),
        pending == 0 ==> !written && event == (Event::ManifestWritten { ok: true }),
{
}

/// A failure seen while jobs are at work does not end the run before the
/// last of them has ended.
pub proof fn lemma_failure_waits_for_jobs(pending: usize, failure: Option<Failure>, written: bool, event: Event)
    requires
        pending > 1,
    ensures
        (RunState::AwaitingExtraction { pending, failure, written }).next(event)
            is AwaitingExtraction,
{
}

} // verus!
