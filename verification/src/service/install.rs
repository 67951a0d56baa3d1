//! Running the installer and the uninstaller of the service.

use crate::error::{CoreError, Failure, Message};
use crate::platform::Platform;
use crate::text::{same_text, utf8_lossy};
use vstd::prelude::*;
use vstd::string::*;

verus! {

/// Which of the two programs is run.
#[derive(Debug, Clone, Copy, PartialEq, Eq, Structural)]
pub enum InstallKind {
    Install,
    Uninstall,
}

/// How a program is run.
#[derive(Debug, Clone, Copy, PartialEq, Eq, Structural)]
pub enum RunMethod {
    /// As it is.
    Direct,
    /// By asking Windows for administrator rights.
    RunAs,
    /// Through the program that gives it rights on Linux.
    Elevator,
    /// Through `sudo`.
    Sudo,
    /// Through AppleScript.
    Osascript,
}

/// What looking for a program found; `quoted` is its path in quotes.
#[derive(Debug)]
pub struct LocatedProgram {
    pub exists: bool,
    pub quoted: String,
}

/// The rights that the application has, and the program that gives others
/// rights on Linux.
#[derive(Debug)]
pub struct Rights {
    pub privileged: bool,
    pub elevator: String,
}

/// How a program ended. What it wrote is known only where it was not run by
/// asking Windows for rights.
#[derive(Debug)]
pub struct ProgramOutput {
    pub success: bool,
    pub code: Option<i32>,
    pub stdout: Vec<u8>,
    pub stderr: Vec<u8>,
}

/// Where running the installer or the uninstaller stands.
#[derive(Debug, Clone, Copy, PartialEq, Eq, Structural)]
pub enum InstallFlow {
    /// The program is being looked for.
    Locating { kind: InstallKind },
    /// The application's rights are being asked for.
    CheckingRights,
    /// The program runs; `sudo_next` is whether `sudo` is tried if it fails.
    Running { sudo_next: bool },
    Finished,
}

/// What comes back from outside.
#[derive(Debug)]
pub enum InstallEvent {
    Located(Result<LocatedProgram, Failure>),
    Rights(Result<Rights, Failure>),
    Ran(Result<ProgramOutput, Failure>),
}

/// How running the installer or the uninstaller ended.
#[derive(Debug)]
pub enum InstallOutcome {
    /// The program was not run, or could not be.
    NotRun(CoreError),
    Ran(ProgramOutput),
}

/// What to do next.
#[derive(Debug)]
pub enum InstallAction {
    Locate(InstallKind),
    QueryRights,
    Run(RunMethod),
    Finish(InstallOutcome),
    Ignore,
}

/// Whether a text has another one in it.
pub open spec fn has_within(s: Seq<char>, part: Seq<char>) -> bool {
    exists|i: int|
        0 <= i && i + part.len() <= s.len() && #[trigger] s.subrange(i, i + part.len()) == part
}

/// Whether a text has another one in it.
pub fn contains_text(s: &str, part: &str) -> (r: bool)
    ensures
        r == has_within(s@, part@),
{
    let n = s.unicode_len();
    let m = part.unicode_len();
    if m > n {
        return false;
    }
    let mut i: usize = 0;
    while i <= n - m
        invariant
            n == s@.len(),
            m == part@.len(),
            m <= n,
            i <= n - m + 1,
            forall|j: int| 0 <= j < i ==> #[trigger] s@.subrange(j, j + m) != part@,
        decreases n - m + 1 - i,
    {
        let piece = s.substring_char(i, i + m);
        if same_text(piece, part) {
            assert(s@.subrange(i as int, i + part@.len()) == part@);
            return true;
        }
        if i == n - m {
            return false;
        }
        i = i + 1;
    }
    false
}

/// The error that a missing program is.
pub open spec fn not_found(kind: InstallKind, path: String) -> CoreError {
    match kind {
        InstallKind::Install => CoreError::Plain(Message::InstallerNotFound { path }),
        InstallKind::Uninstall => CoreError::Plain(Message::UninstallerNotFound { path }),
    }
}

/// How the program is run, and whether `sudo` is tried if that fails.
pub open spec fn run_method(platform: Platform, rights: Rights) -> (RunMethod, bool) {
    match platform {
        Platform::MacOs => (RunMethod::Osascript, false),
        Platform::Windows => if rights.privileged {
            (RunMethod::Direct, false)
        } else {
            (RunMethod::RunAs, false)
        },
        Platform::Linux => if rights.privileged {
            (RunMethod::Direct, false)
        } else {
            (RunMethod::Elevator, has_within(rights.elevator@, "pkexec"@))
        },
    }
}

/// Where running the program goes from `flow` on `event`.
pub open spec fn install_next(platform: Platform, flow: InstallFlow, event: InstallEvent) -> (
    InstallFlow,
    InstallAction,
) {
    match (flow, event) {
        (InstallFlow::Locating { kind }, InstallEvent::Located(located)) => match located {
            Err(failure) => (
                InstallFlow::Finished,
                InstallAction::Finish(InstallOutcome::NotRun(CoreError::Outside(failure))),
            ),
            Ok(program) => if !program.exists {
                (
                    InstallFlow::Finished,
                    InstallAction::Finish(
                        InstallOutcome::NotRun(not_found(kind, program.quoted)),
                    ),
                )
            } else if platform is MacOs {
                (
                    InstallFlow::Running { sudo_next: false },
                    InstallAction::Run(RunMethod::Osascript),
                )
            } else {
                (InstallFlow::CheckingRights, InstallAction::QueryRights)
            },
        },
        (InstallFlow::CheckingRights, InstallEvent::Rights(rights)) => match rights {
            Err(failure) => (
                InstallFlow::Finished,
                InstallAction::Finish(InstallOutcome::NotRun(CoreError::Outside(failure))),
            ),
            Ok(rights) => (
                InstallFlow::Running { sudo_next: run_method(platform, rights).1 },
                InstallAction::Run(run_method(platform, rights).0),
            ),
        },
        (InstallFlow::Running { sudo_next }, InstallEvent::Ran(ran)) => match ran {
            Err(failure) => (
                InstallFlow::Finished,
                InstallAction::Finish(InstallOutcome::NotRun(CoreError::Outside(failure))),
            ),
            Ok(output) => if !output.success && sudo_next {
                (
                    InstallFlow::Running { sudo_next: false },
                    InstallAction::Run(RunMethod::Sudo),
                )
            } else {
                (
                    InstallFlow::Finished,
                    InstallAction::Finish(InstallOutcome::Ran(output)),
                )
            },
        },
        (flow, _) => (flow, InstallAction::Ignore),
    }
}

/// Begins to install the service.
pub fn install_service() -> (r: (InstallFlow, InstallAction))
    ensures
        r == (
            (InstallFlow::Locating { kind: InstallKind::Install }),
            InstallAction::Locate(InstallKind::Install),
        ),
{
    (
        InstallFlow::Locating { kind: InstallKind::Install },
        InstallAction::Locate(InstallKind::Install),
    )
}

/// Begins to uninstall the service.
pub fn uninstall_service() -> (r: (InstallFlow, InstallAction))
    ensures
        r == (
            (InstallFlow::Locating { kind: InstallKind::Uninstall }),
            InstallAction::Locate(InstallKind::Uninstall),
        ),
{
    (
        InstallFlow::Locating { kind: InstallKind::Uninstall },
        InstallAction::Locate(InstallKind::Uninstall),
    )
}

fn not_run(error: CoreError) -> (r: (InstallFlow, InstallAction))
    ensures
        r == (InstallFlow::Finished, InstallAction::Finish(InstallOutcome::NotRun(error))),
{
    (InstallFlow::Finished, InstallAction::Finish(InstallOutcome::NotRun(error)))
}

/// Takes running the program one event further.
pub fn install_step(platform: Platform, flow: InstallFlow, event: InstallEvent) -> (r: (
    InstallFlow,
    InstallAction,
))
    ensures
        r == install_next(platform, flow, event),
{
    match (flow, event) {
        (InstallFlow::Locating { kind }, InstallEvent::Located(located)) => match located {
            Err(failure) => not_run(CoreError::Outside(failure)),
            Ok(program) => {
                if !program.exists {
                    let path = program.quoted;
                    return match kind {
                        InstallKind::Install => not_run(
                            CoreError::Plain(Message::InstallerNotFound { path }),
                        ),
                        InstallKind::Uninstall => not_run(
                            CoreError::Plain(Message::UninstallerNotFound { path }),
                        ),
                    };
                }
                match platform {
                    Platform::MacOs => (
                        InstallFlow::Running { sudo_next: false },
                        InstallAction::Run(RunMethod::Osascript),
                    ),
                    _ => (InstallFlow::CheckingRights, InstallAction::QueryRights),
                }
            },
        },
        (InstallFlow::CheckingRights, InstallEvent::Rights(rights)) => match rights {
            Err(failure) => not_run(CoreError::Outside(failure)),
            Ok(rights) => {
                let (method, sudo_next) = match (platform, rights.privileged) {
                    (Platform::MacOs, _) => (RunMethod::Osascript, false),
                    (Platform::Windows, true) => (RunMethod::Direct, false),
                    (Platform::Windows, false) => (RunMethod::RunAs, false),
                    (Platform::Linux, true) => (RunMethod::Direct, false),
                    (Platform::Linux, false) => (
                        RunMethod::Elevator,
                        contains_text(rights.elevator.as_str(), "pkexec"),
                    ),
                };
                (InstallFlow::Running { sudo_next }, InstallAction::Run(method))
            },
        },
        (InstallFlow::Running { sudo_next }, InstallEvent::Ran(ran)) => match ran {
            Err(failure) => not_run(CoreError::Outside(failure)),
            Ok(output) => if !output.success && sudo_next {
                (
                    InstallFlow::Running { sudo_next: false },
                    InstallAction::Run(RunMethod::Sudo),
                )
            } else {
                (
                    InstallFlow::Finished,
                    InstallAction::Finish(InstallOutcome::Ran(output)),
                )
            },
        },
        (flow, _) => (flow, InstallAction::Ignore),
    }
}

/// The exit code of a program, -1 where it has none.
pub open spec fn exit_code(code: Option<i32>) -> i32 {
    match code {
        Some(code) => code,
        None => (-1) as i32,
    }
}

/// What a program that failed wrote: its errors, or else its output, or else
/// that nothing is known.
pub open spec fn failure_text(stderr: Seq<char>, stdout: Seq<char>) -> Seq<char> {
    if stderr.len() > 0 {
        stderr
    } else if stdout.len() > 0 {
        stdout
    } else {
        "Unknown error"@
    }
}

/// What went wrong with a program, from what it wrote.
pub fn output_error(success: bool, code: Option<i32>, stderr: String, stdout: String) -> (r: Option<
    (i32, String),
>)
    ensures
        match r {
            None => success,
            Some(shown) => {
                &&& !success
                &&& shown.0 == exit_code(code)
                &&& shown.1@ == failure_text(stderr@, stdout@)
            },
        },
{
    if success {
        return None;
    }
    let code: i32 = match code {
        Some(code) => code,
        None => -1,
    };
    if !stderr.as_str().is_empty() {
        return Some((code, stderr));
    }
    if !stdout.as_str().is_empty() {
        return Some((code, stdout));
    }
    Some((code, "Unknown error".to_owned()))
}

/// What went wrong with a program.
pub fn check_output_error(output: &ProgramOutput) -> (r: Option<(i32, String)>)
    ensures
        match r {
            None => output.success,
            Some(shown) => {
                &&& !output.success
                &&& shown.0 == exit_code(output.code)
                &&& shown.1@ == failure_text(
                    crate::text::utf8_lossy_text(output.stderr@),
                    crate::text::utf8_lossy_text(output.stdout@),
                )
            },
        },
{
    output_error(
        output.success,
        output.code,
        utf8_lossy(output.stderr.as_slice()),
        utf8_lossy(output.stdout.as_slice()),
    )
}

/// The result of installing the service.
pub fn install_result(outcome: InstallOutcome) -> (r: Result<(), CoreError>)
    ensures
        match outcome {
            InstallOutcome::NotRun(error) => r == Err::<(), CoreError>(error),
            InstallOutcome::Ran(output) => {
                &&& r is Ok <==> output.success
                &&& r is Err ==> {
                    &&& r->Err_0 matches CoreError::Plain(Message::InstallFailed { code, details })
                    &&& code == exit_code(output.code)
                    &&& details@ == failure_text(
                        crate::text::utf8_lossy_text(output.stderr@),
                        crate::text::utf8_lossy_text(output.stdout@),
                    )
                }
            },
        },
{
    match outcome {
        InstallOutcome::NotRun(error) => Err(error),
        InstallOutcome::Ran(output) => match check_output_error(&output) {
            Some((code, details)) => Err(
                CoreError::Plain(Message::InstallFailed { code, details }),
            ),
            None => Ok(()),
        },
    }
}

/// The result of uninstalling the service.
pub fn uninstall_result(outcome: InstallOutcome) -> (r: Result<(), CoreError>)
    ensures
        r == (match outcome {
            InstallOutcome::NotRun(error) => Err::<(), CoreError>(error),
            InstallOutcome::Ran(output) => if output.success {
                Ok::<(), CoreError>(())
            } else {
                Err::<(), CoreError>(
                    CoreError::Plain((Message::UninstallFailed { code: exit_code(output.code) })),
                )
            },
        }),
{
    match outcome {
        InstallOutcome::NotRun(error) => Err(error),
        InstallOutcome::Ran(output) => if output.success {
            Ok(())
        } else {
            let code: i32 = match output.code {
                Some(code) => code,
                None => -1,
            };
            Err(CoreError::Plain(Message::UninstallFailed { code }))
        },
    }
}

/// Where installing the service anew stands.
#[derive(Debug, Clone, Copy, PartialEq, Eq, Structural)]
pub enum ReinstallFlow {
    Uninstalling,
    Installing,
    Finished,
}

/// What to do next.
#[derive(Debug)]
pub enum ReinstallAction {
    Uninstall,
    Install,
    Finish(Result<(), CoreError>),
    Ignore,
}

/// Where installing the service anew goes from `flow` once what it stands at
/// has ended in `done`: a service that cannot be uninstalled is installed over.
pub open spec fn reinstall_next(flow: ReinstallFlow, done: Result<(), CoreError>) -> (
    ReinstallFlow,
    ReinstallAction,
) {
    match flow {
        ReinstallFlow::Uninstalling => (ReinstallFlow::Installing, ReinstallAction::Install),
        ReinstallFlow::Installing => (
            ReinstallFlow::Finished,
            ReinstallAction::Finish(
                match done {
                    Ok(()) => Ok(()),
                    Err(error) => Err(
                        CoreError::Plain(Message::ReinstallFailed { reason: Box::new(error) }),
                    ),
                },
            ),
        ),
        ReinstallFlow::Finished => (flow, ReinstallAction::Ignore),
    }
}

/// Begins to install the service anew.
pub fn reinstall_service() -> (r: (ReinstallFlow, ReinstallAction))
    ensures
        r == (ReinstallFlow::Uninstalling, ReinstallAction::Uninstall),
{
    (ReinstallFlow::Uninstalling, ReinstallAction::Uninstall)
}

/// Begins to install the service anew, at the user's own request.
pub fn force_reinstall_service() -> (r: (ReinstallFlow, ReinstallAction))
    ensures
        r == (ReinstallFlow::Uninstalling, ReinstallAction::Uninstall),
{
    reinstall_service()
}

/// Takes installing the service anew one step further.
pub fn reinstall_step(flow: ReinstallFlow, done: Result<(), CoreError>) -> (r: (
    ReinstallFlow,
    ReinstallAction,
))
    ensures
        r == reinstall_next(flow, done),
{
    match flow {
        ReinstallFlow::Uninstalling => (ReinstallFlow::Installing, ReinstallAction::Install),
        ReinstallFlow::Installing => {
            let result = match done {
                Ok(()) => Ok(()),
                Err(error) => Err(
                    CoreError::Plain(Message::ReinstallFailed { reason: Box::new(error) }),
                ),
            };
            (ReinstallFlow::Finished, ReinstallAction::Finish(result))
        },
        ReinstallFlow::Finished => (ReinstallFlow::Finished, ReinstallAction::Ignore),
    }
}

/// A program that needs rights is run with them: on macOS through AppleScript,
/// elsewhere as it is where the application has them, and otherwise by asking
/// for them in the way of the platform. `sudo` is tried only after the program
/// that gives rights on Linux failed, and only where that is `pkexec`.
pub proof fn law_program_is_run_with_rights(
    platform: Platform,
    rights: Rights,
)
    ensures
        ({
            let next = install_next(
                platform,
                InstallFlow::CheckingRights,
                InstallEvent::Rights(Ok(rights)),
            );
            &&& next.1 matches InstallAction::Run(method)
            &&& next.0 matches InstallFlow::Running { sudo_next }
            &&& platform is MacOs ==> method is Osascript
            &&& !(platform is MacOs) && rights.privileged ==> method is Direct
            &&& platform is Windows && !rights.privileged ==> method is RunAs
            &&& platform is Linux && !rights.privileged ==> method is Elevator
            &&& sudo_next <==> platform is Linux && !rights.privileged && has_within(
                rights.elevator@,
                "pkexec"@,
            )
        }),
{
}

/// What running the installer or the uninstaller does, it does for a reason:
/// for each thing that it asks for, where it stood, what came in, and how it
/// goes on.
pub proof fn law_installation_acts_for_a_reason(
    platform: Platform,
    flow: InstallFlow,
    event: InstallEvent,
)
    ensures
        ({
            let next = install_next(platform, flow, event);
            match next.1 {
                InstallAction::Locate(_) => false,
                InstallAction::QueryRights => {
                    &&& flow is Locating && !(platform is MacOs)
                    &&& event matches InstallEvent::Located(Ok(program))
                    &&& program.exists
                    &&& next.0 is CheckingRights
                },
                InstallAction::Run(method) => {
                    &&& next.0 matches InstallFlow::Running { sudo_next }
                    &&& match flow {
                        InstallFlow::Locating { .. } => {
                            &&& event matches InstallEvent::Located(Ok(program))
                            &&& program.exists && platform is MacOs
                            &&& method is Osascript && !sudo_next
                        },
                        InstallFlow::CheckingRights => event is Rights && event->Rights_0 is Ok,
                        InstallFlow::Running { sudo_next: allowed } => {
                            &&& event matches InstallEvent::Ran(Ok(output))
                            &&& allowed && !output.success
                            &&& method is Sudo && !sudo_next
                        },
                        InstallFlow::Finished => false,
                    }
                },
                InstallAction::Finish(InstallOutcome::NotRun(error)) => {
                    &&& next.0 is Finished
                    &&& match (flow, event) {
                        (InstallFlow::Locating { .. }, InstallEvent::Located(Err(failure))) => error
                            == CoreError::Outside(failure),
                        (InstallFlow::Locating { kind }, InstallEvent::Located(Ok(program))) => {
                            &&& !program.exists
                            &&& kind is Install ==> error == CoreError::Plain(
                                Message::InstallerNotFound { path: program.quoted },
                            )
                            &&& kind is Uninstall ==> error == CoreError::Plain(
                                Message::UninstallerNotFound { path: program.quoted },
                            )
                        },
                        (InstallFlow::CheckingRights, InstallEvent::Rights(Err(failure))) => error
                            == CoreError::Outside(failure),
                        (InstallFlow::Running { .. }, InstallEvent::Ran(Err(failure))) => error
                            == CoreError::Outside(failure),
                        _ => false,
                    }
                },
                InstallAction::Finish(InstallOutcome::Ran(output)) => {
                    &&& next.0 is Finished
                    &&& flow matches InstallFlow::Running { sudo_next }
                    &&& event == InstallEvent::Ran(Ok(output))
                    &&& output.success || !sudo_next
                },
                InstallAction::Ignore => {
                    &&& next.0 == flow
                    &&& !(flow is Locating && event is Located)
                    &&& !(flow is CheckingRights && event is Rights)
                    &&& !(flow is Running && event is Ran)
                },
            }
        }),
{
}

/// A service is installed anew whether or not it could be uninstalled, and the
/// outcome is that of installing it.
pub proof fn law_reinstallation_ends_in_an_installation(
    uninstalled: Result<(), CoreError>,
    installed: Result<(), CoreError>,
)
    ensures
        ({
            let next = reinstall_next(ReinstallFlow::Uninstalling, uninstalled);
            let end = reinstall_next(next.0, installed);
            &&& next.1 is Install
            &&& end.0 is Finished
            &&& end.1 matches ReinstallAction::Finish(result)
            &&& result is Ok <==> installed is Ok
            &&& installed matches Err(error) ==> result == Err::<(), CoreError>(
                CoreError::Plain(Message::ReinstallFailed { reason: Box::new(error) }),
            )
        }),
        reinstall_next(ReinstallFlow::Finished, installed) == (
            ReinstallFlow::Finished,
            ReinstallAction::Ignore,
        ),
{
}

/// What a program that failed is told by: what it wrote as errors, or else what
/// it wrote at all, and never nothing; and its exit code, where it has one.
pub proof fn law_failed_program_is_told_by_what_it_wrote(
    stderr: Seq<char>,
    stdout: Seq<char>,
    code: i32,
)
    ensures
        stderr.len() > 0 ==> failure_text(stderr, stdout) == stderr,
        stderr.len() == 0 && stdout.len() > 0 ==> failure_text(stderr, stdout) == stdout,
        stderr.len() == 0 && stdout.len() == 0 ==> failure_text(stderr, stdout)
            == "Unknown error"@,
        exit_code(Some(code)) == code,
        exit_code(None) == -1,
{
}

/// A text has another one in it wherever that stands, and not where it stands
/// nowhere.
pub proof fn law_text_is_found_wherever_it_stands(a: Seq<char>, part: Seq<char>, b: Seq<char>)
    ensures
        has_within(a + part + b, part),
        part.len() > a.len() ==> !has_within(a, part),
{
    let s = a + part + b;
    assert(s.subrange(a.len() as int, a.len() as int + part.len()) =~= part);
}

} // verus!
