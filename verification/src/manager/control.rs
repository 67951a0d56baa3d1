//! Stopping and restarting the core, and where its logs are.

use super::{CoreManager, RunningMode};
use crate::error::CoreError;
use vstd::prelude::*;

verus! {

/// Where stopping the core stands.
#[derive(Debug, Clone, Copy, PartialEq, Eq, Structural)]
pub enum StopFlow {
    /// The logs are being cleared.
    ClearingLogs,
    /// Whoever runs the core is being asked to stop it.
    Stopping,
    Finished,
}

/// What comes back from outside.
#[derive(Debug)]
pub enum StopEvent {
    LogsCleared,
    Stopped(Result<(), CoreError>),
}

/// What to do next.
#[derive(Debug)]
pub enum StopAction {
    ClearLogs,
    StopByService,
    StopBySidecar,
    /// Stopping is over; `reported` is the mode that the application is to
    /// show.
    Finish { result: Result<(), CoreError>, reported: RunningMode },
    Ignore,
}

impl CoreManager {
    /// Where stopping the core goes from `flow` on `event`.
    pub open spec fn stop_next(self, flow: StopFlow, event: StopEvent) -> (StopFlow, StopAction) {
        match (flow, event) {
            (StopFlow::ClearingLogs, StopEvent::LogsCleared) => match self.running_mode {
                RunningMode::Service => (StopFlow::Stopping, StopAction::StopByService),
                RunningMode::Sidecar => (StopFlow::Stopping, StopAction::StopBySidecar),
                RunningMode::NotRunning => (
                    StopFlow::Finished,
                    StopAction::Finish { result: Ok(()), reported: RunningMode::NotRunning },
                ),
            },
            (StopFlow::Stopping, StopEvent::Stopped(result)) => (
                StopFlow::Finished,
                StopAction::Finish { result, reported: self.running_mode },
            ),
            (flow, _) => (flow, StopAction::Ignore),
        }
    }

    /// Begins to stop the core; the configuration lock and the right to start
    /// and stop the core are held all through it.
    pub fn stop_core(&self) -> (r: (StopFlow, StopAction))
        ensures
            r == (StopFlow::ClearingLogs, StopAction::ClearLogs),
    {
        (StopFlow::ClearingLogs, StopAction::ClearLogs)
    }

    /// Takes stopping the core one event further.
    pub fn stop_step(&self, flow: StopFlow, event: StopEvent) -> (r: (StopFlow, StopAction))
        ensures
            r == self.stop_next(flow, event),
    {
        match (flow, event) {
            (StopFlow::ClearingLogs, StopEvent::LogsCleared) => match self.running_mode {
                RunningMode::Service => (StopFlow::Stopping, StopAction::StopByService),
                RunningMode::Sidecar => (StopFlow::Stopping, StopAction::StopBySidecar),
                RunningMode::NotRunning => (
                    StopFlow::Finished,
                    StopAction::Finish { result: Ok(()), reported: RunningMode::NotRunning },
                ),
            },
            (StopFlow::Stopping, StopEvent::Stopped(result)) => (
                StopFlow::Finished,
                StopAction::Finish { result, reported: self.running_mode },
            ),
            (flow, _) => (flow, StopAction::Ignore),
        }
    }
}

/// Where restarting the core stands.
#[derive(Debug, Clone, Copy, PartialEq, Eq, Structural)]
pub enum RestartFlow {
    Stopping,
    Starting,
    Finished,
}

/// What to do next.
#[derive(Debug)]
pub enum RestartAction {
    Stop,
    Start,
    Finish(Result<(), CoreError>),
    Ignore,
}

/// Where restarting the core goes from `flow` once what it stands at has ended
/// in `done`: a core that could not be stopped is not started again.
pub open spec fn restart_next(flow: RestartFlow, done: Result<(), CoreError>) -> (
    RestartFlow,
    RestartAction,
) {
    match flow {
        RestartFlow::Stopping => match done {
            Err(error) => (RestartFlow::Finished, RestartAction::Finish(Err(error))),
            Ok(()) => (RestartFlow::Starting, RestartAction::Start),
        },
        RestartFlow::Starting => (RestartFlow::Finished, RestartAction::Finish(done)),
        RestartFlow::Finished => (flow, RestartAction::Ignore),
    }
}

/// Where the core's logs are.
#[derive(Debug, Clone, Copy, PartialEq, Eq, Structural)]
pub enum LogSource {
    /// The service has them.
    Service,
    /// The application has them.
    Sidecar,
    /// There are none.
    Nowhere,
}

impl CoreManager {
    /// Begins to restart the core; the configuration lock and the right to
    /// start and stop the core are held all through it.
    pub fn restart_core(&self) -> (r: (RestartFlow, RestartAction))
        ensures
            r == (RestartFlow::Stopping, RestartAction::Stop),
    {
        (RestartFlow::Stopping, RestartAction::Stop)
    }

    /// Takes restarting the core one step further.
    pub fn restart_step(&self, flow: RestartFlow, done: Result<(), CoreError>) -> (r: (
        RestartFlow,
        RestartAction,
    ))
        ensures
            r == restart_next(flow, done),
    {
        match flow {
            RestartFlow::Stopping => match done {
                Err(error) => (RestartFlow::Finished, RestartAction::Finish(Err(error))),
                Ok(()) => (RestartFlow::Starting, RestartAction::Start),
            },
            RestartFlow::Starting => (RestartFlow::Finished, RestartAction::Finish(done)),
            RestartFlow::Finished => (RestartFlow::Finished, RestartAction::Ignore),
        }
    }

    /// Where the core's logs are to be got.
    pub fn get_clash_logs(&self) -> (r: LogSource)
        ensures
            r == (match self.running_mode {
                RunningMode::Service => LogSource::Service,
                RunningMode::Sidecar => LogSource::Sidecar,
                RunningMode::NotRunning => LogSource::Nowhere,
            }),
    {
        match self.running_mode {
            RunningMode::Service => LogSource::Service,
            RunningMode::Sidecar => LogSource::Sidecar,
            RunningMode::NotRunning => LogSource::Nowhere,
        }
    }
}

} // verus!
