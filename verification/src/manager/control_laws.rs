//! What holds of stopping and restarting the core as a whole.

use super::control::{
    restart_next, RestartAction, RestartFlow, StopAction, StopEvent, StopFlow,
};
use super::{CoreManager, RunningMode};
use crate::error::CoreError;
use vstd::prelude::*;

verus! {

/// Whoever runs the core is asked to stop it, and nobody else; where nobody
/// does, stopping is done.
pub proof fn law_core_is_stopped_by_who_runs_it(manager: CoreManager)
    ensures
        ({
            let next = manager.stop_next(StopFlow::ClearingLogs, StopEvent::LogsCleared);
            &&& next.1 is StopByService <==> manager.running_mode is Service
            &&& next.1 is StopBySidecar <==> manager.running_mode is Sidecar
            &&& manager.running_mode is NotRunning <==> next.1 == (StopAction::Finish {
                result: Ok(()),
                reported: RunningMode::NotRunning,
            })
            &&& !(manager.running_mode is NotRunning) ==> next.0 is Stopping
        }),
{
}

/// What stopping the core came to is reported as it is, with the mode that is
/// left; and nothing is done out of turn.
pub proof fn law_stop_is_reported(manager: CoreManager, flow: StopFlow, event: StopEvent)
    ensures
        ({
            let next = manager.stop_next(flow, event);
            match next.1 {
                StopAction::ClearLogs => false,
                StopAction::StopByService => flow is ClearingLogs && event is LogsCleared,
                StopAction::StopBySidecar => flow is ClearingLogs && event is LogsCleared,
                StopAction::Finish { result, reported } => {
                    &&& next.0 is Finished
                    &&& reported == manager.running_mode
                    &&& match flow {
                        StopFlow::ClearingLogs => event is LogsCleared && result is Ok,
                        StopFlow::Stopping => event == StopEvent::Stopped(result),
                        StopFlow::Finished => false,
                    }
                },
                StopAction::Ignore => {
                    &&& next.0 == flow
                    &&& !(flow is ClearingLogs && event is LogsCleared)
                    &&& !(flow is Stopping && event is Stopped)
                },
            }
        }),
{
}

/// A core that is restarted is stopped and then started: one that could not be
/// stopped is not started, and what starting it came to is the outcome.
pub proof fn law_restart_stops_and_then_starts(
    stopped: Result<(), CoreError>,
    started: Result<(), CoreError>,
)
    ensures
        ({
            let next = restart_next(RestartFlow::Stopping, stopped);
            let end = restart_next(next.0, started);
            &&& next.1 is Start <==> stopped is Ok
            &&& stopped matches Err(error) ==> next == (
                RestartFlow::Finished,
                RestartAction::Finish(Err(error)),
            )
            &&& stopped is Ok ==> end == (RestartFlow::Finished, RestartAction::Finish(started))
        }),
        restart_next(RestartFlow::Finished, stopped) == (
            RestartFlow::Finished,
            RestartAction::Ignore,
        ),
{
}

} // verus!
