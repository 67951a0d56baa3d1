//! Running the core as a sidecar: a process of the application's own.

use super::{CoreManager, RunningMode, SidecarChild, SidecarJob};
use crate::error::{in_context, CoreError, Failure, Message, Note};
use crate::platform::Platform;
use crate::text::{signed_decimal_text, utf8_lossy};
use crate::win32::{wait_failed, wait_object_0};
use vstd::prelude::*;
use vstd::string::*;

verus! {

/// The arguments that a sidecar is started with.
pub open spec fn sidecar_arguments(
    platform: Platform,
    config_dir: Seq<char>,
    config_file: Seq<char>,
    controller: Seq<char>,
) -> Seq<Seq<char>> {
    seq![
        "-d"@,
        config_dir,
        "-f"@,
        config_file,
        if platform is Windows {
            "-ext-ctl-pipe"@
        } else {
            "-ext-ctl-unix"@
        },
        controller,
    ]
}

/// Puts together the arguments that a sidecar is started with.
pub fn sidecar_args(
    platform: Platform,
    config_dir: &str,
    config_file: &str,
    controller: &str,
) -> (r: Vec<String>)
    ensures
        crate::text::texts(r@) == sidecar_arguments(
            platform,
            config_dir@,
            config_file@,
            controller@,
        ),
{
    let flag = match platform {
        Platform::Windows => "-ext-ctl-pipe",
        _ => "-ext-ctl-unix",
    };
    let mut r: Vec<String> = Vec::new();
    r.push("-d".to_owned());
    r.push(config_dir.to_owned());
    r.push("-f".to_owned());
    r.push(config_file.to_owned());
    r.push(flag.to_owned());
    r.push(controller.to_owned());
    assert(crate::text::texts(r@) =~= sidecar_arguments(
        platform,
        config_dir@,
        config_file@,
        controller@,
    ));
    r
}

/// Why a sidecar that was spawned is killed again.
#[derive(Debug)]
pub enum KillCause {
    /// No job object could be set up for it.
    JobFailed { pid: u32, error: CoreError },
    /// It could not be given the lease.
    AttachFailed { generation: u64, pid: u32, attach: Failure },
    /// Its job object could not be recorded.
    JobUnretained { generation: u64, pid: u32, error: CoreError },
    /// Its hold on the lease could not be recorded.
    OwnerUnretained { generation: u64, pid: u32, error: CoreError },
    /// It could not be recorded itself.
    ChildUncommitted { generation: u64, pid: u32, error: CoreError },
}

/// What a start that ends in killing the sidecar reports.
pub open spec fn killed_error(cause: KillCause, killed: Result<(), Failure>) -> CoreError {
    match (cause, killed) {
        (KillCause::AttachFailed { generation, pid, attach }, killed) => CoreError::Plain(
            Message::SidecarStartFailed {
                generation,
                pid,
                attach,
                kill: match killed {
                    Ok(()) => None,
                    Err(kill) => Some(kill),
                },
            },
        ),
        (KillCause::JobFailed { pid, error }, Err(kill)) => CoreError::Plain(
            Message::JobUnterminated { pid, job: Box::new(error), kill },
        ),
        (KillCause::JobFailed { pid, error }, Ok(())) => error,
        (KillCause::JobUnretained { generation, pid, error }, Err(kill)) => CoreError::Plain(
            Message::JobUnretained { generation, pid, reason: Box::new(error), kill },
        ),
        (KillCause::JobUnretained { generation, pid, error }, Ok(())) => error,
        (KillCause::OwnerUnretained { generation, pid, error }, Err(kill)) => CoreError::Plain(
            Message::OwnerUnretained { generation, pid, reason: Box::new(error), kill },
        ),
        (KillCause::OwnerUnretained { generation, pid, error }, Ok(())) => error,
        (KillCause::ChildUncommitted { generation, pid, error }, Err(kill)) => CoreError::Plain(
            Message::ChildUncommitted { generation, pid, reason: Box::new(error), kill },
        ),
        (KillCause::ChildUncommitted { generation, pid, error }, Ok(())) => error,
    }
}

fn error_after_kill(cause: KillCause, killed: Result<(), Failure>) -> (r: CoreError)
    ensures
        r == killed_error(cause, killed),
{
    match (cause, killed) {
        (KillCause::AttachFailed { generation, pid, attach }, killed) => {
            let kill = match killed {
                Ok(()) => None,
                Err(kill) => Some(kill),
            };
            CoreError::Plain(Message::SidecarStartFailed { generation, pid, attach, kill })
        },
        (KillCause::JobFailed { pid, error }, Err(kill)) => CoreError::Plain(
            Message::JobUnterminated { pid, job: Box::new(error), kill },
        ),
        (KillCause::JobFailed { pid: _, error }, Ok(())) => error,
        (KillCause::JobUnretained { generation, pid, error }, Err(kill)) => CoreError::Plain(
            Message::JobUnretained { generation, pid, reason: Box::new(error), kill },
        ),
        (KillCause::JobUnretained { generation: _, pid: _, error }, Ok(())) => error,
        (KillCause::OwnerUnretained { generation, pid, error }, Err(kill)) => CoreError::Plain(
            Message::OwnerUnretained { generation, pid, reason: Box::new(error), kill },
        ),
        (KillCause::OwnerUnretained { generation: _, pid: _, error }, Ok(())) => error,
        (KillCause::ChildUncommitted { generation, pid, error }, Err(kill)) => CoreError::Plain(
            Message::ChildUncommitted { generation, pid, reason: Box::new(error), kill },
        ),
        (KillCause::ChildUncommitted { generation: _, pid: _, error }, Ok(())) => error,
    }
}

/// Where the start of a sidecar stands. Elsewhere than on Windows the
/// generation is 0.
#[derive(Debug)]
pub enum SidecarStartFlow {
    /// The Run file is being written.
    Writing { generation: u64 },
    /// The command is being put together.
    Building { generation: u64 },
    /// The lease is being made inheritable.
    Inheriting { generation: u64 },
    /// The process is being spawned.
    Spawning { generation: u64 },
    /// The process is being put into a job object.
    Assigning { generation: u64, pid: u32 },
    /// The process is being given the lease.
    Attaching { generation: u64, pid: u32 },
    /// The process is being killed.
    Killing { cause: KillCause },
    Finished,
}

/// What comes back from outside.
#[derive(Debug)]
pub enum SidecarStartEvent {
    RunFileWritten(Result<(), CoreError>),
    Built(Result<(), CoreError>),
    Inheritable(Result<(), Failure>),
    /// The id of the process.
    Spawned(Result<u32, Failure>),
    JobAssigned(Result<(), CoreError>),
    Attached(Result<(), Failure>),
    Killed(Result<(), Failure>),
}

/// What to do next.
#[derive(Debug)]
pub enum SidecarStartAction {
    WriteRunFile,
    /// To put the command together and, elsewhere than on Windows, to set the
    /// file mode mask that the process inherits.
    BuildCommand,
    PrepareInheritance,
    Spawn,
    AssignJob { pid: u32 },
    AttachOwner { pid: u32 },
    /// To kill the process. Where `finish_after_exit` is some generation, that
    /// generation is finished once the process is seen to be over.
    Kill { finish_after_exit: Option<u64> },
    /// The sidecar runs: the file mode mask is put back, and what the process
    /// says is listened to.
    Listen(SidecarChild),
    Fail(CoreError),
    Ignore,
}

impl CoreManager {
    /// The sidecar is recorded as running.
    pub open spec fn sidecar_committed(self, generation: u64, pid: u32) -> (
        Self,
        SidecarStartFlow,
        SidecarStartAction,
    ) {
        let child = SidecarChild { generation, pid };
        (
            CoreManager {
                child_sidecar: Some(child),
                running_mode: RunningMode::Sidecar,
                ..self
            },
            SidecarStartFlow::Finished,
            SidecarStartAction::Listen(child),
        )
    }

    /// The job object, the lease and the sidecar itself are recorded, in this
    /// order, on Windows. The first that cannot be recorded has the sidecar
    /// killed; what was recorded before it is taken back, except that the
    /// lease stays until the process is over.
    pub open spec fn sidecar_retained(self, generation: u64, pid: u32) -> (
        Self,
        SidecarStartFlow,
        SidecarStartAction,
    ) {
        if self.sidecar_job is Some {
            let error = CoreError::Plain(
                Message::JobHeld { generation: self.sidecar_job->0.generation },
            );
            (
                self,
                SidecarStartFlow::Killing {
                    cause: KillCause::JobUnretained { generation, pid, error },
                },
                SidecarStartAction::Kill { finish_after_exit: None },
            )
        } else if self.sidecar_core_owner is Some {
            let error = CoreError::Plain(
                Message::OwnerHeld {
                    generation: self.sidecar_core_owner->0.generation,
                    pid: self.sidecar_core_owner->0.pid,
                },
            );
            (
                self,
                SidecarStartFlow::Killing {
                    cause: KillCause::OwnerUnretained { generation, pid, error },
                },
                SidecarStartAction::Kill { finish_after_exit: None },
            )
        } else if self.child_sidecar is Some && self.platform is Windows {
            let error = CoreError::Plain(
                Message::ChildStored {
                    generation: self.child_sidecar->0.generation,
                    pid: self.child_sidecar->0.pid,
                },
            );
            (
                CoreManager {
                    sidecar_core_owner: Some(super::SidecarCoreOwner { generation, pid }),
                    ..self
                },
                SidecarStartFlow::Killing {
                    cause: KillCause::ChildUncommitted { generation, pid, error },
                },
                SidecarStartAction::Kill { finish_after_exit: Some(generation) },
            )
        } else {
            CoreManager {
                sidecar_job: Some(SidecarJob { generation }),
                sidecar_core_owner: Some(super::SidecarCoreOwner { generation, pid }),
                ..self
            }.sidecar_committed(generation, pid)
        }
    }

    /// Where the start of a sidecar goes from `flow` on `event`.
    pub open spec fn sidecar_start_next(
        self,
        flow: SidecarStartFlow,
        event: SidecarStartEvent,
    ) -> (Self, SidecarStartFlow, SidecarStartAction) {
        match (flow, event) {
            (SidecarStartFlow::Writing { generation }, SidecarStartEvent::RunFileWritten(written))
                => match written {
                Err(error) => (self, SidecarStartFlow::Finished, SidecarStartAction::Fail(error)),
                Ok(()) => (
                    self,
                    SidecarStartFlow::Building { generation },
                    SidecarStartAction::BuildCommand,
                ),
            },
            (SidecarStartFlow::Building { generation }, SidecarStartEvent::Built(built)) => {
                match built {
                    Err(error) => (
                        self,
                        SidecarStartFlow::Finished,
                        SidecarStartAction::Fail(error),
                    ),
                    Ok(()) => if self.platform is Windows {
                        (
                            self,
                            SidecarStartFlow::Inheriting { generation },
                            SidecarStartAction::PrepareInheritance,
                        )
                    } else {
                        (
                            self,
                            SidecarStartFlow::Spawning { generation },
                            SidecarStartAction::Spawn,
                        )
                    },
                }
            },
            (
                SidecarStartFlow::Inheriting { generation },
                SidecarStartEvent::Inheritable(inheritable),
            ) => match inheritable {
                Err(reason) => (
                    self,
                    SidecarStartFlow::Finished,
                    SidecarStartAction::Fail(
                        CoreError::Plain(Message::InheritanceFailed { reason }),
                    ),
                ),
                Ok(()) => (
                    self,
                    SidecarStartFlow::Spawning { generation },
                    SidecarStartAction::Spawn,
                ),
            },
            (SidecarStartFlow::Spawning { generation }, SidecarStartEvent::Spawned(spawned)) => {
                match spawned {
                    Err(failure) => (
                        self,
                        SidecarStartFlow::Finished,
                        SidecarStartAction::Fail(CoreError::Outside(failure)),
                    ),
                    Ok(pid) => if self.platform is Windows {
                        (
                            self,
                            SidecarStartFlow::Assigning { generation, pid },
                            SidecarStartAction::AssignJob { pid },
                        )
                    } else {
                        self.sidecar_committed(generation, pid)
                    },
                }
            },
            (
                SidecarStartFlow::Assigning { generation, pid },
                SidecarStartEvent::JobAssigned(assigned),
            ) => match assigned {
                Err(error) => (
                    self,
                    SidecarStartFlow::Killing { cause: KillCause::JobFailed { pid, error } },
                    SidecarStartAction::Kill { finish_after_exit: None },
                ),
                Ok(()) => (
                    self,
                    SidecarStartFlow::Attaching { generation, pid },
                    SidecarStartAction::AttachOwner { pid },
                ),
            },
            (
                SidecarStartFlow::Attaching { generation, pid },
                SidecarStartEvent::Attached(attached),
            ) => match attached {
                Err(attach) => (
                    self,
                    SidecarStartFlow::Killing {
                        cause: KillCause::AttachFailed { generation, pid, attach },
                    },
                    SidecarStartAction::Kill { finish_after_exit: None },
                ),
                Ok(()) => self.sidecar_retained(generation, pid),
            },
            (SidecarStartFlow::Killing { cause }, SidecarStartEvent::Killed(killed)) => (
                self,
                SidecarStartFlow::Finished,
                SidecarStartAction::Fail(killed_error(cause, killed)),
            ),
            (flow, _) => (self, flow, SidecarStartAction::Ignore),
        }
    }

    /// Begins to start a sidecar, on Windows under a new generation.
    pub fn start_core_by_sidecar(&mut self) -> (r: (SidecarStartFlow, SidecarStartAction))
        ensures
            old(self).platform is Windows ==> *final(self) == (CoreManager {
                next_sidecar_generation: super::following(old(self).next_sidecar_generation),
                ..*old(self)
            }) && r == (
                (SidecarStartFlow::Writing { generation: old(self).next_sidecar_generation }),
                SidecarStartAction::WriteRunFile,
            ),
            !(old(self).platform is Windows) ==> *final(self) == *old(self) && r == (
                (SidecarStartFlow::Writing { generation: 0 }),
                SidecarStartAction::WriteRunFile,
            ),
    {
        let generation: u64 = match self.platform {
            Platform::Windows => self.allocate_sidecar_generation(),
            _ => 0,
        };
        (SidecarStartFlow::Writing { generation }, SidecarStartAction::WriteRunFile)
    }

    fn commit_sidecar(&mut self, generation: u64, pid: u32) -> (r: (
        SidecarStartFlow,
        SidecarStartAction,
    ))
        requires
            old(self).platform is Windows ==> old(self).child_sidecar is None,
        ensures
            (*final(self), r.0, r.1) == old(self).sidecar_committed(generation, pid),
    {
        let _stored = self.set_running_child_sidecar(generation, pid);
        self.set_running_mode(RunningMode::Sidecar);
        (SidecarStartFlow::Finished, SidecarStartAction::Listen(SidecarChild { generation, pid }))
    }

    fn retain_sidecar(&mut self, generation: u64, pid: u32) -> (r: (
        SidecarStartFlow,
        SidecarStartAction,
    ))
        ensures
            (*final(self), r.0, r.1) == old(self).sidecar_retained(generation, pid),
    {
        match self.store_sidecar_job(generation) {
            Err(error) => {
                return (
                    SidecarStartFlow::Killing {
                        cause: KillCause::JobUnretained { generation, pid, error },
                    },
                    SidecarStartAction::Kill { finish_after_exit: None },
                );
            },
            Ok(()) => {},
        }
        match self.store_sidecar_core_owner(generation, pid) {
            Err(error) => {
                let _released = self.release_sidecar_job_if_generation(generation);
                return (
                    SidecarStartFlow::Killing {
                        cause: KillCause::OwnerUnretained { generation, pid, error },
                    },
                    SidecarStartAction::Kill { finish_after_exit: None },
                );
            },
            Ok(()) => {},
        }
        match self.set_running_child_sidecar(generation, pid) {
            Err(error) => {
                let finish_after_exit = match self.take_sidecar_job_if_generation(generation) {
                    Some(job) => Some(job.generation),
                    None => None,
                };
                (
                    SidecarStartFlow::Killing {
                        cause: KillCause::ChildUncommitted { generation, pid, error },
                    },
                    SidecarStartAction::Kill { finish_after_exit },
                )
            },
            Ok(()) => {
                self.set_running_mode(RunningMode::Sidecar);
                (
                    SidecarStartFlow::Finished,
                    SidecarStartAction::Listen(SidecarChild { generation, pid }),
                )
            },
        }
    }

    /// Takes the start of a sidecar one event further.
    pub fn sidecar_start_step(
        &mut self,
        flow: SidecarStartFlow,
        event: SidecarStartEvent,
    ) -> (r: (SidecarStartFlow, SidecarStartAction))
        ensures
            (*final(self), r.0, r.1) == old(self).sidecar_start_next(flow, event),
    {
        match (flow, event) {
            (SidecarStartFlow::Writing { generation }, SidecarStartEvent::RunFileWritten(written))
                => match written {
                Err(error) => (SidecarStartFlow::Finished, SidecarStartAction::Fail(error)),
                Ok(()) => (
                    SidecarStartFlow::Building { generation },
                    SidecarStartAction::BuildCommand,
                ),
            },
            (SidecarStartFlow::Building { generation }, SidecarStartEvent::Built(built)) => {
                match built {
                    Err(error) => (SidecarStartFlow::Finished, SidecarStartAction::Fail(error)),
                    Ok(()) => match self.platform {
                        Platform::Windows => (
                            SidecarStartFlow::Inheriting { generation },
                            SidecarStartAction::PrepareInheritance,
                        ),
                        _ => (
                            SidecarStartFlow::Spawning { generation },
                            SidecarStartAction::Spawn,
                        ),
                    },
                }
            },
            (
                SidecarStartFlow::Inheriting { generation },
                SidecarStartEvent::Inheritable(inheritable),
            ) => match inheritable {
                Err(reason) => (
                    SidecarStartFlow::Finished,
                    SidecarStartAction::Fail(
                        CoreError::Plain(Message::InheritanceFailed { reason }),
                    ),
                ),
                Ok(()) => (SidecarStartFlow::Spawning { generation }, SidecarStartAction::Spawn),
            },
            (SidecarStartFlow::Spawning { generation }, SidecarStartEvent::Spawned(spawned)) => {
                match spawned {
                    Err(failure) => (
                        SidecarStartFlow::Finished,
                        SidecarStartAction::Fail(CoreError::Outside(failure)),
                    ),
                    Ok(pid) => match self.platform {
                        Platform::Windows => (
                            SidecarStartFlow::Assigning { generation, pid },
                            SidecarStartAction::AssignJob { pid },
                        ),
                        _ => self.commit_sidecar(generation, pid),
                    },
                }
            },
            (
                SidecarStartFlow::Assigning { generation, pid },
                SidecarStartEvent::JobAssigned(assigned),
            ) => match assigned {
                Err(error) => (
                    SidecarStartFlow::Killing { cause: KillCause::JobFailed { pid, error } },
                    SidecarStartAction::Kill { finish_after_exit: None },
                ),
                Ok(()) => (
                    SidecarStartFlow::Attaching { generation, pid },
                    SidecarStartAction::AttachOwner { pid },
                ),
            },
            (
                SidecarStartFlow::Attaching { generation, pid },
                SidecarStartEvent::Attached(attached),
            ) => match attached {
                Err(attach) => (
                    SidecarStartFlow::Killing {
                        cause: KillCause::AttachFailed { generation, pid, attach },
                    },
                    SidecarStartAction::Kill { finish_after_exit: None },
                ),
                Ok(()) => self.retain_sidecar(generation, pid),
            },
            (SidecarStartFlow::Killing { cause }, SidecarStartEvent::Killed(killed)) => (
                SidecarStartFlow::Finished,
                SidecarStartAction::Fail(error_after_kill(cause, killed)),
            ),
            (flow, _) => (flow, SidecarStartAction::Ignore),
        }
    }
}

/// The context that a failed call of the Windows API is reported in; `failure`
/// is the system's last error.
pub fn last_win32_error(operation: Note, failure: Failure) -> (r: CoreError)
    ensures
        r == CoreError::Outside(failure).within(operation),
{
    in_context(CoreError::Outside(failure), operation)
}

/// Where putting a process into a job object that ends with the application
/// stands: which call is being made.
#[derive(Debug, Clone, Copy, PartialEq, Eq, Structural)]
pub enum ProcessJobFlow {
    Creating,
    Limiting,
    Opening,
    Assigning,
    Finished,
}

/// What to do next. What has been opened is closed again after `Fail`.
#[derive(Debug)]
pub enum ProcessJobAction {
    CreateJobObject,
    SetKillOnClose,
    OpenProcess { pid: u32 },
    AssignProcess,
    Done,
    Fail(CoreError),
    Ignore,
}

/// The message that a failure at `flow` is reported under.
pub open spec fn process_job_note(flow: ProcessJobFlow) -> Note {
    match flow {
        ProcessJobFlow::Creating => Note::CreateJobObject,
        ProcessJobFlow::Limiting => Note::SetInformationJobObject,
        ProcessJobFlow::Opening => Note::OpenProcess,
        _ => Note::AssignProcessToJobObject,
    }
}

/// Where putting process `pid` into a job object goes from `flow` when the
/// call it stands at has ended in `done`.
pub open spec fn process_job_next(pid: u32, flow: ProcessJobFlow, done: Result<(), Failure>) -> (
    ProcessJobFlow,
    ProcessJobAction,
) {
    if flow is Finished {
        (flow, ProcessJobAction::Ignore)
    } else {
        match done {
            Err(failure) => (
                ProcessJobFlow::Finished,
                ProcessJobAction::Fail(CoreError::Outside(failure).within(process_job_note(flow))),
            ),
            Ok(()) => match flow {
                ProcessJobFlow::Creating => (
                    ProcessJobFlow::Limiting,
                    ProcessJobAction::SetKillOnClose,
                ),
                ProcessJobFlow::Limiting => (
                    ProcessJobFlow::Opening,
                    ProcessJobAction::OpenProcess { pid },
                ),
                ProcessJobFlow::Opening => (
                    ProcessJobFlow::Assigning,
                    ProcessJobAction::AssignProcess,
                ),
                _ => (ProcessJobFlow::Finished, ProcessJobAction::Done),
            },
        }
    }
}

/// Begins to put a process into a job object.
pub fn create_and_assign_process_job() -> (r: (ProcessJobFlow, ProcessJobAction))
    ensures
        r == (ProcessJobFlow::Creating, ProcessJobAction::CreateJobObject),
{
    (ProcessJobFlow::Creating, ProcessJobAction::CreateJobObject)
}

/// Takes putting a process into a job object one call further.
pub fn process_job_step(pid: u32, flow: ProcessJobFlow, done: Result<(), Failure>) -> (r: (
    ProcessJobFlow,
    ProcessJobAction,
))
    ensures
        r == process_job_next(pid, flow, done),
{
    match (flow, done) {
        (ProcessJobFlow::Finished, _) => (ProcessJobFlow::Finished, ProcessJobAction::Ignore),
        (ProcessJobFlow::Creating, Ok(())) => (
            ProcessJobFlow::Limiting,
            ProcessJobAction::SetKillOnClose,
        ),
        (ProcessJobFlow::Limiting, Ok(())) => (
            ProcessJobFlow::Opening,
            ProcessJobAction::OpenProcess { pid },
        ),
        (ProcessJobFlow::Opening, Ok(())) => (
            ProcessJobFlow::Assigning,
            ProcessJobAction::AssignProcess,
        ),
        (ProcessJobFlow::Assigning, Ok(())) => (ProcessJobFlow::Finished, ProcessJobAction::Done),
        (ProcessJobFlow::Creating, Err(failure)) => (
            ProcessJobFlow::Finished,
            ProcessJobAction::Fail(last_win32_error(Note::CreateJobObject, failure)),
        ),
        (ProcessJobFlow::Limiting, Err(failure)) => (
            ProcessJobFlow::Finished,
            ProcessJobAction::Fail(last_win32_error(Note::SetInformationJobObject, failure)),
        ),
        (ProcessJobFlow::Opening, Err(failure)) => (
            ProcessJobFlow::Finished,
            ProcessJobAction::Fail(last_win32_error(Note::OpenProcess, failure)),
        ),
        (ProcessJobFlow::Assigning, Err(failure)) => (
            ProcessJobFlow::Finished,
            ProcessJobAction::Fail(last_win32_error(Note::AssignProcessToJobObject, failure)),
        ),
    }
}

/// What waiting for the end of a sidecar came to; `failure` is the system's
/// last error.
pub open spec fn exit_wait(status: u32, failure: Failure) -> Result<(), CoreError> {
    if status == 0 {
        Ok(())
    } else if status == 0xffff_ffff {
        Err(CoreError::Outside(failure).within(Note::WaitForSidecar))
    } else {
        Err(CoreError::Plain(Message::WaitStatus { status }))
    }
}

/// Reads what waiting for the end of a sidecar returned.
pub fn sidecar_exit_wait(status: u32, failure: Failure) -> (r: Result<(), CoreError>)
    ensures
        r == exit_wait(status, failure),
{
    if status == wait_object_0() {
        Ok(())
    } else if status == wait_failed() {
        Err(last_win32_error(Note::WaitForSidecar, failure))
    } else {
        Err(CoreError::Plain(Message::WaitStatus { status }))
    }
}

impl CoreManager {
    /// Takes in how waiting for the end of a sidecar went: only an end that
    /// was seen finishes its generation. Says whether it held the lease.
    pub fn finish_after_sidecar_exit(
        &mut self,
        generation: u64,
        pid: u32,
        waited: Result<Result<(), CoreError>, Failure>,
    ) -> (r: bool)
        ensures
            *final(self) == (if waited is Ok && waited->Ok_0 is Ok {
                old(self).finished(generation, pid)
            } else {
                *old(self)
            }),
            r == (waited is Ok && waited->Ok_0 is Ok && old(self).sidecar_core_owner == Some(
                (super::SidecarCoreOwner { generation, pid }),
            )),
    {
        match waited {
            Ok(Ok(())) => self.finish_sidecar_generation(generation, pid),
            _ => false,
        }
    }
}

/// What a sidecar's process says.
#[derive(Debug)]
pub enum SidecarOutput {
    /// A line on its standard output or standard error.
    Line(Vec<u8>),
    /// It is over.
    Terminated { code: Option<i32>, signal: Option<i32> },
    Other,
    /// Nothing more will come.
    Closed,
}

/// What to do with it.
#[derive(Debug)]
pub enum ListenAction {
    /// To log the line, and go on listening.
    Log(String),
    /// To go on listening.
    Continue,
    /// To log the message, clear the logs, and stop listening.
    Terminate { message: String },
    /// To stop listening; where `finish_after_exit` is some generation, that
    /// generation is finished once the process is seen to be over.
    Stop { finish_after_exit: Option<u64> },
}

/// The message that a process's end is logged with.
pub open spec fn termination_wording(code: Option<i32>, signal: Option<i32>) -> Seq<char> {
    match (code, signal) {
        (Some(code), _) => "Process terminated with code: "@ + crate::text::signed_decimal(
            code as int,
        ),
        (None, Some(signal)) => "Process terminated by signal: "@ + crate::text::signed_decimal(
            signal as int,
        ),
        (None, None) => "Process terminated"@,
    }
}

/// The message that a process's end is logged with.
pub fn termination_message(code: Option<i32>, signal: Option<i32>) -> (r: String)
    ensures
        r@ == termination_wording(code, signal),
{
    match (code, signal) {
        (Some(code), _) => {
            let mut r = "Process terminated with code: ".to_owned();
            r.append(signed_decimal_text(code).as_str());
            r
        },
        (None, Some(signal)) => {
            let mut r = "Process terminated by signal: ".to_owned();
            r.append(signed_decimal_text(signal).as_str());
            r
        },
        (None, None) => "Process terminated".to_owned(),
    }
}

impl CoreManager {
    /// Takes in what the process of `child` says. The end of the process
    /// finishes its generation at once; a process that falls silent without an
    /// end is still to be waited for.
    pub fn listen_to_sidecar(&mut self, child: SidecarChild, output: SidecarOutput) -> (r:
        ListenAction)
        ensures
            match output {
                SidecarOutput::Line(line) => {
                    &&& r matches ListenAction::Log(text)
                    &&& text@ == crate::text::utf8_lossy_text(line@)
                    &&& *final(self) == *old(self)
                },
                SidecarOutput::Other => r is Continue && *final(self) == *old(self),
                SidecarOutput::Terminated { code, signal } => {
                    &&& r matches ListenAction::Terminate { message }
                    &&& message@ == termination_wording(code, signal)
                    &&& *final(self) == (if old(self).platform is Windows {
                        old(self).finished(child.generation, child.pid)
                    } else {
                        *old(self)
                    })
                },
                SidecarOutput::Closed => {
                    let waits = old(self).platform is Windows && old(self).sidecar_job == Some(
                        (SidecarJob { generation: child.generation }),
                    );
                    &&& r == (ListenAction::Stop {
                        finish_after_exit: if waits {
                            Some(child.generation)
                        } else {
                            None
                        },
                    })
                    &&& *final(self) == (if waits {
                        old(self).without_job(child.generation)
                    } else {
                        *old(self)
                    })
                },
            },
    {
        match output {
            SidecarOutput::Line(line) => ListenAction::Log(utf8_lossy(line.as_slice())),
            SidecarOutput::Other => ListenAction::Continue,
            SidecarOutput::Terminated { code, signal } => {
                match self.platform {
                    Platform::Windows => {
                        let _released = self.finish_sidecar_generation(
                            child.generation,
                            child.pid,
                        );
                    },
                    _ => {},
                }
                ListenAction::Terminate { message: termination_message(code, signal) }
            },
            SidecarOutput::Closed => {
                let finish_after_exit = match self.platform {
                    Platform::Windows => match self.take_sidecar_job_if_generation(
                        child.generation,
                    ) {
                        Some(job) => Some(job.generation),
                        None => None,
                    },
                    _ => None,
                };
                ListenAction::Stop { finish_after_exit }
            },
        }
    }
}

/// Where stopping a sidecar stands.
#[derive(Debug)]
pub enum SidecarStopFlow {
    /// Its process is being killed.
    Killing { child: SidecarChild },
    /// It is being waited for to give the lease back.
    Waiting { child: SidecarChild, killed: Result<(), Failure> },
    Finished,
}

/// What comes back from outside.
#[derive(Debug)]
pub enum SidecarStopEvent {
    Killed(Result<(), Failure>),
    Waited(Result<(), CoreError>),
}

/// What to do next.
#[derive(Debug)]
pub enum SidecarStopAction {
    Kill(SidecarChild),
    /// To wait for the sidecar to give the lease back. Where `finish_after_exit`
    /// is some generation, that generation is finished once the process is
    /// seen to be over.
    AwaitRelease { child: SidecarChild, finish_after_exit: Option<u64> },
    Finish(Result<(), CoreError>),
    Ignore,
}

impl CoreManager {
    /// Stopping a sidecar ends; no core counts as running after that.
    pub open spec fn sidecar_stopped(self, result: Result<(), CoreError>) -> (
        Self,
        SidecarStopFlow,
        SidecarStopAction,
    ) {
        (
            self.in_mode(RunningMode::NotRunning),
            SidecarStopFlow::Finished,
            SidecarStopAction::Finish(result),
        )
    }

    /// Where stopping a sidecar goes from `flow` on `event`.
    pub open spec fn sidecar_stop_next(self, flow: SidecarStopFlow, event: SidecarStopEvent) -> (
        Self,
        SidecarStopFlow,
        SidecarStopAction,
    ) {
        match (flow, event) {
            (SidecarStopFlow::Killing { child }, SidecarStopEvent::Killed(killed)) => {
                if self.platform is Windows {
                    (
                        self.without_job(child.generation),
                        SidecarStopFlow::Waiting { child, killed },
                        SidecarStopAction::AwaitRelease {
                            child,
                            finish_after_exit: if self.sidecar_job == Some(
                                SidecarJob { generation: child.generation },
                            ) {
                                Some(child.generation)
                            } else {
                                None
                            },
                        },
                    )
                } else {
                    self.sidecar_stopped(
                        match killed {
                            Ok(()) => Ok(()),
                            Err(failure) => Err(CoreError::Outside(failure)),
                        },
                    )
                }
            },
            (SidecarStopFlow::Waiting { child, killed }, SidecarStopEvent::Waited(waited)) => {
                self.sidecar_stopped(
                    match (waited, killed) {
                        (Ok(()), _) => Ok(()),
                        (Err(wait), Ok(())) => Err(wait),
                        (Err(wait), Err(kill)) => Err(
                            CoreError::Plain(
                                Message::SidecarUnterminated {
                                    generation: child.generation,
                                    pid: child.pid,
                                    kill,
                                    wait: Box::new(wait),
                                },
                            ),
                        ),
                    },
                )
            },
            (flow, _) => (self, flow, SidecarStopAction::Ignore),
        }
    }

    fn end_sidecar_stop(&mut self, result: Result<(), CoreError>) -> (r: (
        SidecarStopFlow,
        SidecarStopAction,
    ))
        ensures
            (*final(self), r.0, r.1) == old(self).sidecar_stopped(result),
    {
        self.set_running_mode(RunningMode::NotRunning);
        (SidecarStopFlow::Finished, SidecarStopAction::Finish(result))
    }

    /// Begins to stop the sidecar, if there is one.
    pub fn stop_core_by_sidecar(&mut self) -> (r: (SidecarStopFlow, SidecarStopAction))
        ensures
            (*final(self), r.0, r.1) == (match old(self).child_sidecar {
                Some(child) => (
                    (CoreManager { child_sidecar: None, ..*old(self) }),
                    (SidecarStopFlow::Killing { child }),
                    SidecarStopAction::Kill(child),
                ),
                None => old(self).sidecar_stopped(Ok(())),
            }),
    {
        match self.take_child_sidecar() {
            Some(child) => (SidecarStopFlow::Killing { child }, SidecarStopAction::Kill(child)),
            None => self.end_sidecar_stop(Ok(())),
        }
    }

    /// Takes stopping a sidecar one event further.
    pub fn sidecar_stop_step(&mut self, flow: SidecarStopFlow, event: SidecarStopEvent) -> (r: (
        SidecarStopFlow,
        SidecarStopAction,
    ))
        ensures
            (*final(self), r.0, r.1) == old(self).sidecar_stop_next(flow, event),
    {
        match (flow, event) {
            (SidecarStopFlow::Killing { child }, SidecarStopEvent::Killed(killed)) => {
                match self.platform {
                    Platform::Windows => {
                        let finish_after_exit = match self.take_sidecar_job_if_generation(
                            child.generation,
                        ) {
                            Some(job) => Some(job.generation),
                            None => None,
                        };
                        (
                            SidecarStopFlow::Waiting { child, killed },
                            SidecarStopAction::AwaitRelease { child, finish_after_exit },
                        )
                    },
                    _ => {
                        let result = match killed {
                            Ok(()) => Ok(()),
                            Err(failure) => Err(CoreError::Outside(failure)),
                        };
                        self.end_sidecar_stop(result)
                    },
                }
            },
            (SidecarStopFlow::Waiting { child, killed }, SidecarStopEvent::Waited(waited)) => {
                let result = match (waited, killed) {
                    (Ok(()), _) => Ok(()),
                    (Err(wait), Ok(())) => Err(wait),
                    (Err(wait), Err(kill)) => Err(
                        CoreError::Plain(
                            Message::SidecarUnterminated {
                                generation: child.generation,
                                pid: child.pid,
                                kill,
                                wait: Box::new(wait),
                            },
                        ),
                    ),
                };
                self.end_sidecar_stop(result)
            },
            (flow, _) => (flow, SidecarStopAction::Ignore),
        }
    }
}

} // verus!
