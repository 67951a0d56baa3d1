//! What holds of running a sidecar as a whole.

use super::sidecar::{
    KillCause, ProcessJobAction, ProcessJobFlow, SidecarStartAction, SidecarStartEvent, SidecarStartFlow,
    SidecarStopAction, SidecarStopEvent, SidecarStopFlow,
};
use super::{CoreManager, RunningMode, SidecarChild, SidecarCoreOwner, SidecarJob};
use crate::error::{CoreError, Failure, Message, Note};
use vstd::string::*;
use vstd::prelude::*;

verus! {

/// A sidecar that has been started is recorded as running.
pub proof fn law_started_sidecar_is_recorded(
    manager: CoreManager,
    flow: SidecarStartFlow,
    event: SidecarStartEvent,
)
    ensures
        ({
            let next = manager.sidecar_start_next(flow, event);
            next.2 matches SidecarStartAction::Listen(child) ==> {
                &&& next.0.running_mode is Sidecar
                &&& next.0.child_sidecar == Some(child)
                &&& manager.platform is Windows && flow is Attaching ==> next.0.sidecar_recorded()
            }
        }),
{
}

/// On Windows a sidecar counts as running only once its process is in a job
/// object and has the lease.
pub proof fn law_sidecar_is_committed_last(
    manager: CoreManager,
    flow: SidecarStartFlow,
    event: SidecarStartEvent,
)
    requires
        manager.platform is Windows,
        manager.sidecar_start_next(flow, event).2 is Listen,
    ensures
        flow is Attaching,
        event is Attached,
        event->Attached_0 is Ok,
        manager.child_sidecar is None,
        manager.sidecar_core_owner is None,
        manager.sidecar_job is None,
{
}

/// A start that fails leaves the mode, the child and the job object as they
/// were.
pub proof fn law_failed_sidecar_leaves_no_trace(
    manager: CoreManager,
    flow: SidecarStartFlow,
    event: SidecarStartEvent,
)
    requires
        !(manager.sidecar_start_next(flow, event).2 is Listen),
    ensures
        ({
            let after = manager.sidecar_start_next(flow, event).0;
            &&& after.running_mode == manager.running_mode
            &&& after.child_sidecar == manager.child_sidecar
            &&& after.sidecar_job == manager.sidecar_job
            &&& after.windows_sidecar_tun_fallback_active
                == manager.windows_sidecar_tun_fallback_active
        }),
{
}

/// A sidecar that is killed after it got the lease gives the lease back once
/// its process is seen to be over: nothing but the lease had been recorded.
pub proof fn law_killed_sidecar_gives_the_lease_back(
    manager: CoreManager,
    generation: u64,
    pid: u32,
)
    requires
        manager.platform is Windows,
        manager.sidecar_core_owner is None,
    ensures
        ({
            let next = manager.sidecar_retained(generation, pid);
            next.2 is Kill ==> {
                &&& next.0.sidecar_core_owner is Some
                    ==> next.2 == SidecarStartAction::Kill { finish_after_exit: Some(generation) }
                &&& next.0.sidecar_core_owner is Some ==> next.0.finished(
                    generation,
                    pid,
                ).sidecar_core_owner is None
                &&& next.0 == CoreManager {
                    sidecar_core_owner: next.0.sidecar_core_owner,
                    ..manager
                }
            }
        }),
{
}

/// A sidecar that runs and then ends leaves the records as if it had not been,
/// but for what counts generations.
pub proof fn law_ended_sidecar_leaves_no_trace(manager: CoreManager, generation: u64, pid: u32)
    requires
        manager.platform is Windows,
        manager.sidecar_job is None,
        manager.sidecar_core_owner is None,
        manager.child_sidecar is None,
    ensures
        ({
            let after = manager.sidecar_retained(generation, pid).0.finished(generation, pid);
            after == CoreManager {
                running_mode: RunningMode::NotRunning,
                windows_sidecar_tun_fallback_active: false,
                finished_sidecar_generation: after.finished_sidecar_generation,
                ..manager
            }
        }),
{
}

/// Stopping a sidecar ends with no core running, whatever went wrong, and
/// succeeds on Windows exactly where the lease was given back.
pub proof fn law_stopped_sidecar_does_not_run(
    manager: CoreManager,
    flow: SidecarStopFlow,
    event: SidecarStopEvent,
)
    ensures
        ({
            let next = manager.sidecar_stop_next(flow, event);
            next.2 matches SidecarStopAction::Finish(result) ==> {
                &&& next.0.running_mode is NotRunning
                &&& flow is Waiting && event is Waited ==> (result is Ok <==> event->Waited_0 is Ok)
            }
        }),
{
}

/// A process is put into a job object by four calls, each made once, in order,
/// and only as long as all went well.
pub proof fn law_job_is_set_up_in_order(
    pid: u32,
    flow: ProcessJobFlow,
    done: Result<(), Failure>,
)
    ensures
        ({
            let next = super::sidecar::process_job_next(pid, flow, done);
            &&& next.1 is Done ==> flow is Assigning && done is Ok
            &&& next.1 is AssignProcess ==> flow is Opening && done is Ok
            &&& next.1 is OpenProcess ==> flow is Limiting && done is Ok && next.1
                == ProcessJobAction::OpenProcess { pid }
            &&& next.1 is SetKillOnClose ==> flow is Creating && done is Ok
            &&& done is Err && !(flow is Finished) ==> next.1 is Fail && next.1->Fail_0
                == CoreError::Outside(done->Err_0).within(super::sidecar::process_job_note(flow))
        }),
{
}

/// A sidecar is told where its configuration is and where it is to be talked
/// to: on Windows at a pipe, elsewhere at a socket.
pub proof fn law_sidecar_is_told_its_places(
    platform: crate::platform::Platform,
    config_dir: Seq<char>,
    config_file: Seq<char>,
    controller: Seq<char>,
)
    ensures
        ({
            let args = super::sidecar::sidecar_arguments(
                platform,
                config_dir,
                config_file,
                controller,
            );
            &&& args.len() == 6
            &&& args[0] == "-d"@ && args[1] == config_dir
            &&& args[2] == "-f"@ && args[3] == config_file
            &&& args[5] == controller
            &&& platform is Windows ==> args[4] == "-ext-ctl-pipe"@
            &&& !(platform is Windows) ==> args[4] == "-ext-ctl-unix"@
        }),
{
}

/// What the start of a sidecar does, it does for a reason: for each thing that
/// it asks for, where it stood, what came in, and how it goes on.
pub proof fn law_sidecar_start_acts_for_a_reason(
    manager: CoreManager,
    flow: SidecarStartFlow,
    event: SidecarStartEvent,
)
    ensures
        ({
            let next = manager.sidecar_start_next(flow, event);
            let windows = manager.platform is Windows;
            match next.2 {
                SidecarStartAction::WriteRunFile => false,
                SidecarStartAction::BuildCommand => {
                    &&& flow matches SidecarStartFlow::Writing { generation }
                    &&& event matches SidecarStartEvent::RunFileWritten(Ok(_))
                    &&& next.1 == SidecarStartFlow::Building { generation }
                    &&& next.0 == manager
                },
                SidecarStartAction::PrepareInheritance => {
                    &&& flow matches SidecarStartFlow::Building { generation }
                    &&& event matches SidecarStartEvent::Built(Ok(_))
                    &&& windows
                    &&& next.1 == SidecarStartFlow::Inheriting { generation }
                    &&& next.0 == manager
                },
                SidecarStartAction::Spawn => {
                    &&& next.0 == manager
                    &&& match flow {
                        SidecarStartFlow::Building { generation } => !windows && event is Built
                            && event->Built_0 is Ok && next.1 == (SidecarStartFlow::Spawning {
                            generation,
                        }),
                        SidecarStartFlow::Inheriting { generation } => event is Inheritable
                            && event->Inheritable_0 is Ok && next.1 == (SidecarStartFlow::Spawning {
                            generation,
                        }),
                        _ => false,
                    }
                },
                SidecarStartAction::AssignJob { pid } => {
                    &&& flow matches SidecarStartFlow::Spawning { generation }
                    &&& event == SidecarStartEvent::Spawned(Ok(pid)) && windows
                    &&& next.1 == SidecarStartFlow::Assigning { generation, pid }
                    &&& next.0 == manager
                },
                SidecarStartAction::AttachOwner { pid } => {
                    &&& flow matches SidecarStartFlow::Assigning { generation, pid: same }
                    &&& event matches SidecarStartEvent::JobAssigned(Ok(_))
                    &&& pid == same
                    &&& next.1 == SidecarStartFlow::Attaching { generation, pid }
                    &&& next.0 == manager
                },
                SidecarStartAction::Listen(child) => {
                    &&& next.1 is Finished
                    &&& match flow {
                        SidecarStartFlow::Spawning { generation } => {
                            &&& !windows && event == SidecarStartEvent::Spawned(Ok(child.pid))
                            &&& child.generation == generation
                            &&& next.0 == CoreManager {
                                child_sidecar: Some(child),
                                running_mode: RunningMode::Sidecar,
                                ..manager
                            }
                        },
                        SidecarStartFlow::Attaching { generation, pid } => {
                            &&& event is Attached && event->Attached_0 is Ok
                            &&& child == SidecarChild { generation, pid }
                            &&& manager.sidecar_job is None && manager.sidecar_core_owner is None
                            &&& next.0 == CoreManager {
                                child_sidecar: Some(child),
                                running_mode: RunningMode::Sidecar,
                                sidecar_job: Some(SidecarJob { generation }),
                                sidecar_core_owner: Some(SidecarCoreOwner { generation, pid }),
                                ..manager
                            }
                        },
                        _ => false,
                    }
                },
                SidecarStartAction::Kill { finish_after_exit } => {
                    &&& next.1 matches SidecarStartFlow::Killing { cause }
                    &&& match (flow, event) {
                        (
                            SidecarStartFlow::Assigning { generation, pid },
                            SidecarStartEvent::JobAssigned(Err(error)),
                        ) => finish_after_exit is None && next.0 == manager && cause
                            == (KillCause::JobFailed { pid, error }),
                        (
                            SidecarStartFlow::Attaching { generation, pid },
                            SidecarStartEvent::Attached(Err(attach)),
                        ) => finish_after_exit is None && next.0 == manager && cause
                            == (KillCause::AttachFailed { generation, pid, attach }),
                        (
                            SidecarStartFlow::Attaching { generation, pid },
                            SidecarStartEvent::Attached(Ok(_)),
                        ) => match (
                            manager.sidecar_job,
                            manager.sidecar_core_owner,
                            manager.child_sidecar,
                        ) {
                            (Some(job), _, _) => finish_after_exit is None && next.0 == manager
                                && cause == (KillCause::JobUnretained {
                                generation,
                                pid,
                                error: CoreError::Plain(
                                    Message::JobHeld { generation: job.generation },
                                ),
                            }),
                            (None, Some(owner), _) => finish_after_exit is None && next.0 == manager
                                && cause == (KillCause::OwnerUnretained {
                                generation,
                                pid,
                                error: CoreError::Plain(
                                    Message::OwnerHeld {
                                        generation: owner.generation,
                                        pid: owner.pid,
                                    },
                                ),
                            }),
                            (None, None, Some(child)) => {
                                &&& windows && finish_after_exit == Some(generation)
                                &&& next.0 == CoreManager {
                                    sidecar_core_owner: Some(SidecarCoreOwner { generation, pid }),
                                    ..manager
                                }
                                &&& cause == (KillCause::ChildUncommitted {
                                    generation,
                                    pid,
                                    error: CoreError::Plain(
                                        Message::ChildStored {
                                            generation: child.generation,
                                            pid: child.pid,
                                        },
                                    ),
                                })
                            },
                            (None, None, None) => false,
                        },
                        _ => false,
                    }
                },
                SidecarStartAction::Fail(error) => {
                    &&& next.1 is Finished && next.0 == manager
                    &&& match (flow, event) {
                        (
                            SidecarStartFlow::Writing { .. },
                            SidecarStartEvent::RunFileWritten(Err(cause)),
                        ) => error == cause,
                        (
                            SidecarStartFlow::Building { .. },
                            SidecarStartEvent::Built(Err(cause)),
                        ) => error == cause,
                        (
                            SidecarStartFlow::Inheriting { .. },
                            SidecarStartEvent::Inheritable(Err(reason)),
                        ) => error == CoreError::Plain(Message::InheritanceFailed { reason }),
                        (
                            SidecarStartFlow::Spawning { .. },
                            SidecarStartEvent::Spawned(Err(failure)),
                        ) => error == CoreError::Outside(failure),
                        (SidecarStartFlow::Killing { .. }, SidecarStartEvent::Killed(_)) => true,
                        _ => false,
                    }
                },
                SidecarStartAction::Ignore => {
                    &&& next.0 == manager && next.1 == flow
                    &&& !(flow is Writing && event is RunFileWritten)
                    &&& !(flow is Building && event is Built)
                    &&& !(flow is Inheriting && event is Inheritable)
                    &&& !(flow is Spawning && event is Spawned)
                    &&& !(flow is Assigning && event is JobAssigned)
                    &&& !(flow is Attaching && event is Attached)
                    &&& !(flow is Killing && event is Killed)
                },
            }
        }),
{
}

/// A start that ended in killing the sidecar reports what it was killed for;
/// where the kill failed too, the report names the sidecar and holds both.
pub proof fn law_kill_is_reported_with_its_cause(
    manager: CoreManager,
    cause: KillCause,
    kill: Failure,
)
    ensures
        ({
            let killed = manager.sidecar_start_next(
                SidecarStartFlow::Killing { cause },
                SidecarStartEvent::Killed(Ok(())),
            ).2;
            let alive = manager.sidecar_start_next(
                SidecarStartFlow::Killing { cause },
                SidecarStartEvent::Killed(Err(kill)),
            ).2;
            match cause {
                KillCause::JobFailed { pid, error } => {
                    &&& killed == SidecarStartAction::Fail(error)
                    &&& alive == SidecarStartAction::Fail(
                        CoreError::Plain(
                            Message::JobUnterminated { pid, job: Box::new(error), kill },
                        ),
                    )
                },
                KillCause::AttachFailed { generation, pid, attach } => {
                    &&& killed == SidecarStartAction::Fail(
                        CoreError::Plain(
                            Message::SidecarStartFailed { generation, pid, attach, kill: None },
                        ),
                    )
                    &&& alive == SidecarStartAction::Fail(
                        CoreError::Plain(
                            Message::SidecarStartFailed {
                                generation,
                                pid,
                                attach,
                                kill: Some(kill),
                            },
                        ),
                    )
                },
                KillCause::JobUnretained { generation, pid, error } => {
                    &&& killed == SidecarStartAction::Fail(error)
                    &&& alive == SidecarStartAction::Fail(
                        CoreError::Plain(
                            Message::JobUnretained {
                                generation,
                                pid,
                                reason: Box::new(error),
                                kill,
                            },
                        ),
                    )
                },
                KillCause::OwnerUnretained { generation, pid, error } => {
                    &&& killed == SidecarStartAction::Fail(error)
                    &&& alive == SidecarStartAction::Fail(
                        CoreError::Plain(
                            Message::OwnerUnretained {
                                generation,
                                pid,
                                reason: Box::new(error),
                                kill,
                            },
                        ),
                    )
                },
                KillCause::ChildUncommitted { generation, pid, error } => {
                    &&& killed == SidecarStartAction::Fail(error)
                    &&& alive == SidecarStartAction::Fail(
                        CoreError::Plain(
                            Message::ChildUncommitted {
                                generation,
                                pid,
                                reason: Box::new(error),
                                kill,
                            },
                        ),
                    )
                },
            }
        }),
{
}

/// What stopping a sidecar does, it does for a reason: for each thing that it
/// asks for, where it stood, what came in, and how it goes on.
pub proof fn law_sidecar_stop_acts_for_a_reason(
    manager: CoreManager,
    flow: SidecarStopFlow,
    event: SidecarStopEvent,
)
    ensures
        ({
            let next = manager.sidecar_stop_next(flow, event);
            let windows = manager.platform is Windows;
            match next.2 {
                SidecarStopAction::Kill(_) => false,
                SidecarStopAction::AwaitRelease { child, finish_after_exit } => {
                    &&& flow == SidecarStopFlow::Killing { child } && windows
                    &&& event matches SidecarStopEvent::Killed(killed)
                    &&& next.1 == SidecarStopFlow::Waiting { child, killed }
                    &&& finish_after_exit is Some ==> finish_after_exit == Some(child.generation)
                    &&& finish_after_exit is Some <==> manager.sidecar_job == Some(
                        SidecarJob { generation: child.generation },
                    )
                    &&& next.0 == CoreManager {
                        sidecar_job: if finish_after_exit is Some {
                            None
                        } else {
                            manager.sidecar_job
                        },
                        ..manager
                    }
                },
                SidecarStopAction::Finish(result) => {
                    &&& next.1 is Finished
                    &&& next.0 == CoreManager { running_mode: RunningMode::NotRunning, ..manager }
                    &&& match (flow, event) {
                        (SidecarStopFlow::Killing { .. }, SidecarStopEvent::Killed(killed)) => {
                            &&& !windows
                            &&& result is Ok <==> killed is Ok
                            &&& killed matches Err(failure) ==> result == Err::<(), CoreError>(
                                CoreError::Outside(failure),
                            )
                        },
                        (
                            SidecarStopFlow::Waiting { child, killed },
                            SidecarStopEvent::Waited(waited),
                        ) => {
                            &&& result is Ok <==> waited is Ok
                            &&& waited matches Err(wait) ==> match killed {
                                Ok(_) => result == Err::<(), CoreError>(wait),
                                Err(kill) => result == Err::<(), CoreError>(
                                    CoreError::Plain(
                                        Message::SidecarUnterminated {
                                            generation: child.generation,
                                            pid: child.pid,
                                            kill,
                                            wait: Box::new(wait),
                                        },
                                    ),
                                ),
                            }
                        },
                        _ => false,
                    }
                },
                SidecarStopAction::Ignore => {
                    &&& next.0 == manager && next.1 == flow
                    &&& !(flow is Killing && event is Killed)
                    &&& !(flow is Waiting && event is Waited)
                },
            }
        }),
{
}

/// A process is put into a job object by four calls that go well, one after
/// the other, and by nothing less.
pub proof fn law_job_takes_four_calls(pid: u32)
    ensures
        ({
            let done = Ok::<(), Failure>(());
            let limit = super::sidecar::process_job_next(pid, ProcessJobFlow::Creating, done);
            let open = super::sidecar::process_job_next(pid, limit.0, done);
            let assign = super::sidecar::process_job_next(pid, open.0, done);
            let end = super::sidecar::process_job_next(pid, assign.0, done);
            &&& limit.1 is SetKillOnClose
            &&& open.1 == ProcessJobAction::OpenProcess { pid }
            &&& assign.1 is AssignProcess
            &&& end.1 is Done && end.0 is Finished
        }),
        forall|done: Result<(), Failure>| #[trigger]
            super::sidecar::process_job_next(pid, ProcessJobFlow::Finished, done) == (
                ProcessJobFlow::Finished,
                ProcessJobAction::Ignore,
            ),
{
}

/// A failed call of setting up a job object is reported under its own name.
pub proof fn law_failed_call_is_named(pid: u32, failure: Failure)
    ensures
        forall|flow: ProcessJobFlow| !(flow is Finished) ==> (#[trigger]
        super::sidecar::process_job_next(pid, flow, Err(failure))) == (
            ProcessJobFlow::Finished,
            ProcessJobAction::Fail(
                CoreError::Context(
                    Message::Note(
                        match flow {
                            ProcessJobFlow::Creating => Note::CreateJobObject,
                            ProcessJobFlow::Limiting => Note::SetInformationJobObject,
                            ProcessJobFlow::Opening => Note::OpenProcess,
                            _ => Note::AssignProcessToJobObject,
                        },
                    ),
                    Box::new(CoreError::Outside(failure)),
                ),
            ),
        ),
{
}

/// The end of a sidecar was seen exactly where the wait says that its process
/// is over; a wait that failed, or that says something else, tells so.
pub proof fn law_only_a_finished_process_is_over(status: u32, failure: Failure)
    ensures
        super::sidecar::exit_wait(status, failure) is Ok <==> status == 0,
        status == u32::MAX ==> super::sidecar::exit_wait(status, failure) == Err::<(), CoreError>(
            CoreError::Context(
                Message::Note(Note::WaitForSidecar),
                Box::new(CoreError::Outside(failure)),
            ),
        ),
        status != 0 && status != u32::MAX ==> super::sidecar::exit_wait(status, failure) == Err::<
            (),
            CoreError,
        >(CoreError::Plain(Message::WaitStatus { status })),
{
}

/// The end of a process is told by its exit code, where it has one, and
/// otherwise by the signal that ended it.
pub proof fn law_termination_is_told_by_code_first(code: i32, signal: Option<i32>, by: i32)
    ensures
        super::sidecar::termination_wording(Some(code), signal)
            == "Process terminated with code: "@ + crate::text::signed_decimal(code as int),
        super::sidecar::termination_wording(None, Some(by)) == "Process terminated by signal: "@
            + crate::text::signed_decimal(by as int),
        super::sidecar::termination_wording(None, None) == "Process terminated"@,
{
}

} // verus!
