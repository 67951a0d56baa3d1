//! Bringing the ICS recovery target up to date in the background.

use crate::clock::after;
use crate::error::{in_context, CoreError, Note};
use vstd::prelude::*;

verus! {

/// How long a synchronization that fails is tried again, in milliseconds.
pub const SYNC_TIMEOUT: u64 = 30000;

/// The time between two tries, in milliseconds.
pub const SYNC_INTERVAL: u64 = 1000;

/// How long nothing must have asked for a synchronization before it is made,
/// in milliseconds.
pub const QUIET_PERIOD: u64 = 250;

/// Where a synchronization stands.
#[derive(Debug)]
pub enum SyncFlow {
    /// A try is made; after `deadline` there is no other.
    Trying { deadline: u64 },
    /// It is not time for another try yet.
    Pausing { deadline: u64 },
    Finished,
}

/// What comes back from outside.
#[derive(Debug)]
pub enum SyncEvent {
    /// A try ended like this, at this moment.
    Tried { result: Result<(), CoreError>, now: u64 },
    Slept,
}

/// What to do next.
#[derive(Debug)]
pub enum SyncAction {
    /// To set the recovery target to what the committed settings ask for,
    /// under a hold of the configuration lock of its own.
    Try,
    Sleep { interval: u64 },
    Finish(Result<(), CoreError>),
    Ignore,
}

/// Where a synchronization goes from `flow` on `event`.
pub open spec fn sync_next(flow: SyncFlow, event: SyncEvent) -> (SyncFlow, SyncAction) {
    match (flow, event) {
        (SyncFlow::Trying { deadline }, SyncEvent::Tried { result, now }) => match result {
            Ok(()) => (SyncFlow::Finished, SyncAction::Finish(Ok(()))),
            Err(error) => if now >= deadline {
                (
                    SyncFlow::Finished,
                    SyncAction::Finish(Err(error.within(Note::IcsSyncTimedOut))),
                )
            } else {
                (SyncFlow::Pausing { deadline }, SyncAction::Sleep { interval: SYNC_INTERVAL })
            },
        },
        (SyncFlow::Pausing { deadline }, SyncEvent::Slept) => (
            SyncFlow::Trying { deadline },
            SyncAction::Try,
        ),
        (flow, _) => (flow, SyncAction::Ignore),
    }
}

/// Begins a synchronization.
pub fn configure_committed_windows_ics_recovery_with_retry(now: u64) -> (r: (SyncFlow, SyncAction))
    ensures
        r == (
            (SyncFlow::Trying {
                deadline: crate::clock::moment_after(now, SYNC_TIMEOUT),
            }),
            SyncAction::Try,
        ),
        now + 30000 <= u64::MAX ==> r.0 == (SyncFlow::Trying { deadline: (now + 30000) as u64 }),
{
    (SyncFlow::Trying { deadline: after(now, SYNC_TIMEOUT) }, SyncAction::Try)
}

/// Takes a synchronization one event further.
pub fn sync_step(flow: SyncFlow, event: SyncEvent) -> (r: (SyncFlow, SyncAction))
    ensures
        r == sync_next(flow, event),
{
    match (flow, event) {
        (SyncFlow::Trying { deadline }, SyncEvent::Tried { result, now }) => match result {
            Ok(()) => (SyncFlow::Finished, SyncAction::Finish(Ok(()))),
            Err(error) => if now >= deadline {
                (
                    SyncFlow::Finished,
                    SyncAction::Finish(Err(in_context(error, Note::IcsSyncTimedOut))),
                )
            } else {
                (SyncFlow::Pausing { deadline }, SyncAction::Sleep { interval: SYNC_INTERVAL })
            },
        },
        (SyncFlow::Pausing { deadline }, SyncEvent::Slept) => (
            SyncFlow::Trying { deadline },
            SyncAction::Try,
        ),
        (flow, _) => (flow, SyncAction::Ignore),
    }
}

/// The requests for a synchronization, and whether a worker serves them.
#[derive(Debug, Clone, Copy, PartialEq, Eq, Structural)]
pub struct IcsRecoverySchedule {
    pub running: bool,
    /// Counts the requests, starting over after the last number.
    pub generation: u64,
}

/// Where the worker stands. `observed` is the request that it has seen.
#[derive(Debug, Clone, Copy, PartialEq, Eq, Structural)]
pub enum WorkerFlow {
    /// It waits for a quiet moment.
    Settling { observed: u64 },
    /// A synchronization is being made.
    Syncing { observed: u64 },
    Finished,
}

/// What comes back from outside.
#[derive(Debug, Clone, Copy, PartialEq, Eq, Structural)]
pub enum WorkerEvent {
    Slept,
    /// A synchronization was made, or given up.
    Synced,
}

/// What to do next.
#[derive(Debug, Clone, Copy, PartialEq, Eq, Structural)]
pub enum WorkerAction {
    Sleep { period: u64 },
    Synchronize,
    Finish,
    Ignore,
}

/// The worker waits for a quiet moment.
pub open spec fn worker_settling(schedule: IcsRecoverySchedule) -> (WorkerFlow, WorkerAction) {
    (
        WorkerFlow::Settling { observed: schedule.generation },
        WorkerAction::Sleep { period: QUIET_PERIOD },
    )
}

impl IcsRecoverySchedule {
    /// No requests yet.
    pub fn new() -> (r: Self)
        ensures
            r == (IcsRecoverySchedule { running: false, generation: 0 }),
    {
        IcsRecoverySchedule { running: false, generation: 0 }
    }

    /// The requests once another has come in.
    pub open spec fn requested(self) -> Self {
        IcsRecoverySchedule {
            running: true,
            generation: crate::manager::following(self.generation),
        }
    }

    /// The worker that another request begins.
    pub open spec fn begins(self) -> Option<(WorkerFlow, WorkerAction)> {
        if self.running {
            None
        } else {
            Some(worker_settling(self.requested()))
        }
    }

    /// Asks for a synchronization. A worker that is there serves it; otherwise
    /// one begins.
    pub fn schedule_windows_ics_recovery(&mut self) -> (r: Option<(WorkerFlow, WorkerAction)>)
        ensures
            *final(self) == old(self).requested(),
            r == old(self).begins(),
    {
        self.generation = self.generation.wrapping_add(1);
        if self.running {
            return None;
        }
        self.running = true;
        Some(self.settle())
    }

    fn settle(&self) -> (r: (WorkerFlow, WorkerAction))
        ensures
            r == worker_settling(*self),
    {
        (
            WorkerFlow::Settling { observed: self.generation },
            WorkerAction::Sleep { period: QUIET_PERIOD },
        )
    }

    /// Where the worker goes from `flow` on `event`: whenever another request
    /// has come in, it starts over.
    pub open spec fn worker_next(self, flow: WorkerFlow, event: WorkerEvent) -> (
        Self,
        WorkerFlow,
        WorkerAction,
    ) {
        match (flow, event) {
            (WorkerFlow::Settling { observed }, WorkerEvent::Slept) => if self.generation
                != observed {
                (self, worker_settling(self).0, worker_settling(self).1)
            } else {
                (self, WorkerFlow::Syncing { observed }, WorkerAction::Synchronize)
            },
            (WorkerFlow::Syncing { observed }, WorkerEvent::Synced) => if self.generation
                != observed {
                (self, worker_settling(self).0, worker_settling(self).1)
            } else {
                (
                    IcsRecoverySchedule { running: false, ..self },
                    WorkerFlow::Finished,
                    WorkerAction::Finish,
                )
            },
            (flow, _) => (self, flow, WorkerAction::Ignore),
        }
    }

    /// Takes the worker one event further.
    pub fn worker_step(&mut self, flow: WorkerFlow, event: WorkerEvent) -> (r: (
        WorkerFlow,
        WorkerAction,
    ))
        ensures
            (*final(self), r.0, r.1) == old(self).worker_next(flow, event),
    {
        match (flow, event) {
            (WorkerFlow::Settling { observed }, WorkerEvent::Slept) => if self.generation
                != observed {
                self.settle()
            } else {
                (WorkerFlow::Syncing { observed }, WorkerAction::Synchronize)
            },
            (WorkerFlow::Syncing { observed }, WorkerEvent::Synced) => if self.generation
                != observed {
                self.settle()
            } else {
                self.running = false;
                (WorkerFlow::Finished, WorkerAction::Finish)
            },
            (flow, _) => (flow, WorkerAction::Ignore),
        }
    }
}

/// A request that comes in while the worker is at work is served: the worker
/// does not end on what it saw before, but starts over.
pub proof fn law_request_during_the_work_is_served(
    schedule: IcsRecoverySchedule,
    flow: WorkerFlow,
    event: WorkerEvent,
)
    requires
        flow is Settling && flow->Settling_observed == schedule.generation || flow is Syncing
            && flow->Syncing_observed == schedule.generation,
    ensures
        ({
            let next = schedule.requested().worker_next(flow, event);
            &&& !(next.2 is Finish)
            &&& next.0 == schedule.requested()
            &&& flow is Settling && event is Slept || flow is Syncing && event is Synced
                ==> next.1 == worker_settling(schedule.requested()).0
        }),
{
}

/// The worker synchronizes only after a quiet period, and ends only after a
/// synchronization during which no request came in.
pub proof fn law_worker_ends_only_when_nothing_is_asked(
    schedule: IcsRecoverySchedule,
    flow: WorkerFlow,
    event: WorkerEvent,
)
    ensures
        ({
            let next = schedule.worker_next(flow, event);
            &&& next.2 is Synchronize ==> flow == WorkerFlow::Settling {
                observed: schedule.generation,
            } && event is Slept
            &&& next.2 is Finish ==> flow == WorkerFlow::Syncing { observed: schedule.generation }
                && event is Synced && !next.0.running
            &&& !(next.2 is Finish) ==> next.0 == schedule
        }),
{
}

/// A request begins a worker exactly where there is none. From then on, and
/// until the worker ends, no request begins another, and each is counted.
pub proof fn law_one_worker_at_a_time(
    schedule: IcsRecoverySchedule,
    flow: WorkerFlow,
    event: WorkerEvent,
)
    ensures
        schedule.begins() is None <==> schedule.running,
        schedule.requested().begins() is None,
        schedule.requested().generation != schedule.generation,
        schedule.running && !(schedule.worker_next(flow, event).2 is Finish)
            ==> schedule.worker_next(flow, event).0.begins() is None,
        schedule.worker_next(flow, event).2 is Finish ==> schedule.worker_next(
            flow,
            event,
        ).0.begins() is Some,
{
}

/// A synchronization that fails is tried again after an interval until its
/// deadline; it ends well with the first try that does, and otherwise in the
/// last error.
pub proof fn law_synchronization_is_tried_until_its_deadline(flow: SyncFlow, event: SyncEvent)
    ensures
        ({
            let next = sync_next(flow, event);
            match next.1 {
                SyncAction::Try => {
                    &&& flow matches SyncFlow::Pausing { deadline }
                    &&& event is Slept
                    &&& next.0 == SyncFlow::Trying { deadline }
                },
                SyncAction::Sleep { interval } => {
                    &&& flow matches SyncFlow::Trying { deadline }
                    &&& event matches SyncEvent::Tried { result: Err(_), now }
                    &&& now < deadline && interval == 1000
                    &&& next.0 == SyncFlow::Pausing { deadline }
                },
                SyncAction::Finish(Ok(_)) => {
                    &&& next.0 is Finished && flow is Trying
                    &&& event matches SyncEvent::Tried { result: Ok(_), now }
                },
                SyncAction::Finish(Err(error)) => {
                    &&& next.0 is Finished
                    &&& flow matches SyncFlow::Trying { deadline }
                    &&& event matches SyncEvent::Tried { result: Err(cause), now }
                    &&& now >= deadline
                    &&& error == CoreError::Context(
                        crate::error::Message::Note(Note::IcsSyncTimedOut),
                        Box::new(cause),
                    )
                },
                SyncAction::Ignore => {
                    &&& next.0 == flow
                    &&& !(flow is Trying && event is Tried)
                    &&& !(flow is Pausing && event is Slept)
                },
            }
        }),
{
}

/// The worker synchronizes where nothing was asked for during a quiet period,
/// and starts over where something was; it waits for a quiet period of its own
/// length each time.
pub proof fn law_worker_starts_over_for_each_request(
    schedule: IcsRecoverySchedule,
    observed: u64,
)
    ensures
        ({
            let settled = schedule.worker_next(
                WorkerFlow::Settling { observed },
                WorkerEvent::Slept,
            );
            let synced = schedule.worker_next(WorkerFlow::Syncing { observed }, WorkerEvent::Synced);
            let again = (
                schedule,
                WorkerFlow::Settling { observed: schedule.generation },
                WorkerAction::Sleep { period: 250 },
            );
            &&& schedule.generation != observed ==> settled == again && synced == again
            &&& schedule.generation == observed ==> {
                &&& settled == (schedule, WorkerFlow::Syncing { observed }, WorkerAction::Synchronize)
                &&& synced == (
                    IcsRecoverySchedule { running: false, ..schedule },
                    WorkerFlow::Finished,
                    WorkerAction::Finish,
                )
            }
        }),
{
}

} // verus!
