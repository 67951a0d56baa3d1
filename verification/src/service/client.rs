//! Asking the service to run the core, and for what it knows.

use super::ipc::{read_data, read_done, read_list, IpcResponse};
use super::status::ServiceManager;
use crate::error::{note_error, CoreError, Failure, Note};
use crate::platform::Platform;
use vstd::prelude::*;

verus! {

/// What the service needs to know to run the core.
#[derive(Debug)]
pub struct CoreConfig {
    pub config_path: String,
    pub core_path: String,
    pub core_ipc_path: String,
    pub config_dir: String,
}

/// Puts together what the service is asked to run. Where there is no core that
/// it could be asked to run, it is not asked.
pub fn core_config(
    core_path: Result<String, CoreError>,
    config_path: String,
    core_ipc_path: String,
    config_dir: String,
) -> (r: Result<CoreConfig, CoreError>)
    ensures
        r == (match core_path {
            Ok(core_path) => Ok::<CoreConfig, CoreError>(
                (CoreConfig { config_path, core_path, core_ipc_path, config_dir }),
            ),
            Err(error) => Err::<CoreConfig, CoreError>(error),
        }),
{
    match core_path {
        Ok(core_path) => Ok(CoreConfig { config_path, core_path, core_ipc_path, config_dir }),
        Err(error) => Err(error),
    }
}

/// Reads the reply to a request to start the core.
pub fn start_with_existing_service(reply: Result<IpcResponse<()>, Failure>) -> (r: Result<
    (),
    CoreError,
>)
    ensures
        r == super::ipc::done_reply(reply, Note::ServiceUnreachable),
{
    read_done(reply, Note::ServiceUnreachable)
}

/// Where starting the core through the service stands.
#[derive(Debug, Clone, Copy, PartialEq, Eq, Structural)]
pub enum RunCoreFlow {
    /// The service is being checked and brought up to date.
    Refreshing,
    /// It is being asked to start the core.
    Starting,
    Finished,
}

/// What to do next.
#[derive(Debug)]
pub enum RunCoreAction {
    Refresh,
    Start,
    Finish(Result<(), CoreError>),
    Ignore,
}

/// Where starting the core through the service goes from `flow` once what it
/// stands at has ended in `done`.
pub open spec fn run_core_next(flow: RunCoreFlow, done: Result<(), CoreError>) -> (
    RunCoreFlow,
    RunCoreAction,
) {
    match flow {
        RunCoreFlow::Refreshing => match done {
            Err(error) => (RunCoreFlow::Finished, RunCoreAction::Finish(Err(error))),
            Ok(()) => (RunCoreFlow::Starting, RunCoreAction::Start),
        },
        RunCoreFlow::Starting => (RunCoreFlow::Finished, RunCoreAction::Finish(done)),
        RunCoreFlow::Finished => (flow, RunCoreAction::Ignore),
    }
}

/// Begins to start the core through the service.
pub fn run_core_by_service() -> (r: (RunCoreFlow, RunCoreAction))
    ensures
        r == (RunCoreFlow::Refreshing, RunCoreAction::Refresh),
{
    (RunCoreFlow::Refreshing, RunCoreAction::Refresh)
}

/// Takes starting the core through the service one step further.
pub fn run_core_step(flow: RunCoreFlow, done: Result<(), CoreError>) -> (r: (
    RunCoreFlow,
    RunCoreAction,
))
    ensures
        r == run_core_next(flow, done),
{
    match flow {
        RunCoreFlow::Refreshing => match done {
            Err(error) => (RunCoreFlow::Finished, RunCoreAction::Finish(Err(error))),
            Ok(()) => (RunCoreFlow::Starting, RunCoreAction::Start),
        },
        RunCoreFlow::Starting => (RunCoreFlow::Finished, RunCoreAction::Finish(done)),
        RunCoreFlow::Finished => (RunCoreFlow::Finished, RunCoreAction::Ignore),
    }
}

/// Reads the reply to a request for the core's logs.
pub fn get_clash_logs_by_service(reply: Result<IpcResponse<Vec<String>>, Failure>) -> (r: Result<
    Vec<String>,
    CoreError,
>)
    ensures
        match reply {
            Err(failure) => r == Err::<Vec<String>, CoreError>(
                super::ipc::no_reply(failure, Note::ServiceUnreachable),
            ),
            Ok(response) => if response.code > 0 {
                r == Err::<Vec<String>, CoreError>(super::ipc::refusal(response.message))
            } else {
                &&& r is Ok
                &&& match response.data {
                    Some(data) => r->Ok_0@ == data@,
                    None => r->Ok_0@.len() == 0,
                }
            },
        },
{
    read_list(reply, Note::ServiceUnreachable)
}

/// Reads the reply to a request to stop the core.
pub fn stop_core_by_service(reply: Result<IpcResponse<()>, Failure>) -> (r: Result<(), CoreError>)
    ensures
        r == super::ipc::done_reply(reply, Note::ServiceUnreachable),
{
    read_done(reply, Note::ServiceUnreachable)
}

/// Whether the service can be talked to: its endpoint must be there, and take
/// a connection. `connection` is made only where the endpoint is.
pub fn is_service_available(endpoint: Result<(), Failure>, connection: Result<(), Failure>) -> (r:
    Result<(), CoreError>)
    ensures
        r == (match (endpoint, connection) {
            (Err(failure), _) => Err::<(), CoreError>(CoreError::Outside(failure)),
            (Ok(()), Err(failure)) => Err::<(), CoreError>(CoreError::Outside(failure)),
            (Ok(()), Ok(())) => Ok::<(), CoreError>(()),
        }),
{
    match (endpoint, connection) {
        (Err(failure), _) => Err(CoreError::Outside(failure)),
        (Ok(()), Err(failure)) => Err(CoreError::Outside(failure)),
        (Ok(()), Ok(())) => Ok(()),
    }
}

impl ServiceManager {
    /// Reads the reply to a request for the network connections that can be
    /// shared, which there are on Windows only.
    pub fn list_windows_ics_connections<T>(
        &self,
        reply: Result<IpcResponse<Vec<T>>, Failure>,
    ) -> (r: Result<Vec<T>, CoreError>)
        ensures
            !(self.platform is Windows) ==> r == Err::<Vec<T>, CoreError>(
                CoreError::of(Note::IcsUnsupported),
            ),
            self.platform is Windows ==> match reply {
                Err(failure) => r == Err::<Vec<T>, CoreError>(
                    super::ipc::no_reply(failure, Note::IcsListUnreachable),
                ),
                Ok(response) => if response.code > 0 {
                    r == Err::<Vec<T>, CoreError>(super::ipc::refusal(response.message))
                } else {
                    &&& r is Ok
                    &&& match response.data {
                        Some(data) => r->Ok_0@ == data@,
                        None => r->Ok_0@.len() == 0,
                    }
                },
            },
    {
        match self.platform {
            Platform::Windows => read_list(reply, Note::IcsListUnreachable),
            _ => Err(note_error(Note::IcsUnsupported)),
        }
    }

    /// Reads the reply to a request to repair the sharing of a connection,
    /// which there is on Windows only.
    pub fn repair_windows_ics<T>(&self, reply: Result<IpcResponse<T>, Failure>) -> (r: Result<
        T,
        CoreError,
    >)
        ensures
            r == (if self.platform is Windows {
                super::ipc::data_reply(reply, Note::IcsRepairUnreachable, Note::IcsRepairMissing)
            } else {
                Err::<T, CoreError>(CoreError::of(Note::IcsUnsupported))
            }),
    {
        match self.platform {
            Platform::Windows => read_data(
                reply,
                Note::IcsRepairUnreachable,
                Note::IcsRepairMissing,
            ),
            _ => Err(note_error(Note::IcsUnsupported)),
        }
    }
}

} // verus!
