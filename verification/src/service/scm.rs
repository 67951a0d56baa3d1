//! What the Windows Service Control Manager knows of the service, and whether
//! a process owns it.

use crate::error::{in_context, CoreError, Failure, Note};
use crate::text::trimmed;
use crate::win32::{
    error_invalid_parameter, error_service_does_not_exist, service_stopped, still_active,
};
use vstd::prelude::*;
use vstd::string::*;

verus! {

/// The state of the installed service. A stopped one can start at any time, so
/// only an absent one is out of the way.
#[derive(Debug, Clone, Copy, PartialEq, Eq, Structural)]
pub enum WindowsScmServiceState {
    Absent,
    Stopped,
    Active,
}

/// The state of a service that is installed, from the number the system gives
/// it.
pub fn classify_installed_windows_scm_state(current_state: u32) -> (r: WindowsScmServiceState)
    ensures
        r == (if current_state == 1 {
            WindowsScmServiceState::Stopped
        } else {
            WindowsScmServiceState::Active
        }),
{
    if current_state == service_stopped() {
        WindowsScmServiceState::Stopped
    } else {
        WindowsScmServiceState::Active
    }
}

/// Whether a sidecar may run beside a service in this state.
pub fn windows_scm_state_allows_sidecar(state: WindowsScmServiceState) -> (r: bool)
    ensures
        r == (state is Absent),
{
    match state {
        WindowsScmServiceState::Absent => true,
        _ => false,
    }
}

/// How asking the Service Control Manager went.
#[derive(Debug)]
pub enum ScmProbe {
    /// The manager could not be opened.
    ManagerRefused(Failure),
    /// The service could not be opened, with this error number.
    ServiceRefused { code: u32, failure: Failure },
    /// The service's status could not be read.
    StatusRefused(Failure),
    /// The service's status, as a number.
    Status { current_state: u32 },
}

/// The state of the service that a probe shows.
pub open spec fn probed_state(probe: ScmProbe) -> Result<WindowsScmServiceState, CoreError> {
    match probe {
        ScmProbe::ManagerRefused(failure) => Err(CoreError::Outside(failure).within(Note::ScmOpen)),
        ScmProbe::ServiceRefused { code, failure } => if code == 1060 {
            Ok(WindowsScmServiceState::Absent)
        } else {
            Err(CoreError::Outside(failure).within(Note::ScmServiceOpen))
        },
        ScmProbe::StatusRefused(failure) => Err(CoreError::Outside(failure).within(Note::ScmQuery)),
        ScmProbe::Status { current_state } => Ok(
            if current_state == 1 {
                WindowsScmServiceState::Stopped
            } else {
                WindowsScmServiceState::Active
            },
        ),
    }
}

/// Reads the state of the service from a probe.
pub fn query_windows_scm_service_state(probe: ScmProbe) -> (r: Result<
    WindowsScmServiceState,
    CoreError,
>)
    ensures
        r == probed_state(probe),
{
    match probe {
        ScmProbe::ManagerRefused(failure) => Err(
            in_context(CoreError::Outside(failure), Note::ScmOpen),
        ),
        ScmProbe::ServiceRefused { code, failure } => if code == error_service_does_not_exist() {
            Ok(WindowsScmServiceState::Absent)
        } else {
            Err(in_context(CoreError::Outside(failure), Note::ScmServiceOpen))
        },
        ScmProbe::StatusRefused(failure) => Err(
            in_context(CoreError::Outside(failure), Note::ScmQuery),
        ),
        ScmProbe::Status { current_state } => Ok(
            classify_installed_windows_scm_state(current_state),
        ),
    }
}

/// Whether the Service Control Manager lets a sidecar run.
pub fn windows_scm_allows_sidecar(probe: ScmProbe) -> (r: Result<bool, CoreError>)
    ensures
        r == (match probed_state(probe) {
            Ok(state) => Ok(state is Absent),
            Err(error) => Err(error),
        }),
{
    match query_windows_scm_service_state(probe) {
        Ok(state) => Ok(windows_scm_state_allows_sidecar(state)),
        Err(error) => Err(error),
    }
}

/// Whether a change of the configuration can reach the recovery target that
/// the service keeps.
pub fn windows_ics_service_sync_required(
    running_as_service: bool,
    previous_recovery_enabled: Option<bool>,
    current_recovery_enabled: Option<bool>,
) -> (r: bool)
    ensures
        r == (running_as_service || previous_recovery_enabled == Some(true)
            || current_recovery_enabled == Some(true)),
{
    running_as_service || previous_recovery_enabled.unwrap_or(false)
        || current_recovery_enabled.unwrap_or(false)
}

/// The number that `digits` write in decimal, if they are digits and at least
/// one.
pub open spec fn digits_value(digits: Seq<char>) -> Option<nat>
    decreases digits.len(),
{
    if digits.len() == 0 || !('0' <= digits.last() <= '9') {
        None
    } else {
        let last = (digits.last() as int - '0' as int) as nat;
        if digits.len() == 1 {
            Some(last)
        } else {
            match digits_value(digits.drop_last()) {
                Some(n) => Some(10 * n + last),
                None => None,
            }
        }
    }
}

/// `s` without a leading plus sign.
pub open spec fn unsigned_digits(s: Seq<char>) -> Seq<char> {
    if s.len() > 0 && s[0] == '+' {
        s.drop_first()
    } else {
        s
    }
}

/// The process id that `s` writes: decimal digits, maybe after a plus sign,
/// whose number fits.
pub open spec fn pid_value(s: Seq<char>) -> Option<u32> {
    match digits_value(unsigned_digits(s)) {
        Some(n) => if n <= u32::MAX {
            Some(n as u32)
        } else {
            None
        },
        None => None,
    }
}

/// Reads a process id.
pub fn parse_pid(s: &str) -> (r: Option<u32>)
    ensures
        r == pid_value(s@),
{
    let n = s.unicode_len();
    let start: usize = if n > 0 && s.get_char(0) == '+' {
        1
    } else {
        0
    };
    let ghost digits = unsigned_digits(s@);
    assert(digits =~= s@.skip(start as int));
    if start == n {
        return None;
    }
    let mut i: usize = start;
    let mut value: u64 = 0;
    let mut fits: bool = true;
    while i < n
        invariant
            n == s@.len(),
            start <= i <= n,
            start < n,
            digits =~= s@.skip(start as int),
            digits == unsigned_digits(s@),
            i > start ==> digits_value(digits.take(i - start)) is Some,
            i > start && fits ==> digits_value(digits.take(i - start)) == Some(value as nat),
            fits ==> value <= u32::MAX,
            !fits ==> i > start && digits_value(digits.take(i - start))->0 > u32::MAX,
            i == start ==> value == 0,
        decreases n - i,
    {
        let c = s.get_char(i);
        let ghost seen = digits.take(i - start + 1);
        assert(seen.last() == c);
        assert(seen.drop_last() =~= digits.take(i - start));
        if c < '0' || c > '9' {
            proof {
                lemma_bad_digit(digits, i - start);
            }
            return None;
        }
        let d: u64 = (c as u32 - '0' as u32) as u64;
        if fits {
            value = 10 * value + d;
            if value > u32::MAX as u64 {
                fits = false;
            }
        }
        i = i + 1;
    }
    assert(digits.take(i - start) =~= digits);
    if fits {
        Some(value as u32)
    } else {
        None
    }
}

/// A text with a character in it that is no digit writes no number.
proof fn lemma_bad_digit(digits: Seq<char>, i: int)
    requires
        0 <= i < digits.len(),
        !('0' <= digits[i] <= '9'),
    ensures
        digits_value(digits) is None,
    decreases digits.len(),
{
    if i < digits.len() - 1 {
        lemma_bad_digit(digits.drop_last(), i);
    }
}

/// The first line of `s`: what stands before the first line feed.
pub open spec fn first_line(s: Seq<char>) -> Seq<char>
    decreases s.len(),
{
    if s.len() == 0 || s[0] == '\n' {
        Seq::empty()
    } else {
        seq![s[0]] + first_line(s.drop_first())
    }
}

/// The process id that a line gives: what stands behind `pid=`.
pub open spec fn line_pid(line: Seq<char>) -> Option<u32> {
    if "pid="@.is_prefix_of(line) {
        pid_value(trimmed(line.skip(4)))
    } else {
        None
    }
}

/// The process id that the first line to give one gives.
pub open spec fn owner_lock_pid(s: Seq<char>) -> Option<u32>
    decreases s.len(),
{
    let line = first_line(s);
    if line_pid(line) is Some {
        line_pid(line)
    } else if line.len() < s.len() {
        owner_lock_pid(s.skip(line.len() as int + 1))
    } else {
        None
    }
}

proof fn lemma_first_line_len(s: Seq<char>)
    ensures
        first_line(s).len() <= s.len(),
        first_line(s) =~= s.take(first_line(s).len() as int),
        first_line(s).len() < s.len() ==> s[first_line(s).len() as int] == '\n',
        forall|i: int| 0 <= i < first_line(s).len() ==> s[i] != '\n',
    decreases s.len(),
{
    if s.len() > 0 && s[0] != '\n' {
        lemma_first_line_len(s.drop_first());
        let rest = first_line(s.drop_first());
        assert(first_line(s) =~= seq![s[0]] + rest);
        assert forall|i: int| 0 <= i < first_line(s).len() implies s[i] != '\n' by {
            if i > 0 {
                assert(s.drop_first()[i - 1] != '\n');
            }
        }
        assert(first_line(s) =~= s.take(first_line(s).len() as int));
    }
}

proof fn lemma_first_line(s: Seq<char>, n: int)
    requires
        0 <= n <= s.len(),
        forall|i: int| 0 <= i < n ==> s[i] != '\n',
        n < s.len() ==> s[n] == '\n',
    ensures
        first_line(s) =~= s.take(n),
{
    lemma_first_line_len(s);
    let m = first_line(s).len() as int;
    if m < n {
        assert(s[m] == '\n');
    }
    if n < m {
        assert(s[n] == '\n');
    }
}

/// Finds the process id in the text of an owner lock.
pub fn parse_owner_lock(s: &str) -> (r: Option<u32>)
    ensures
        r == owner_lock_pid(s@),
{
    let n = s.unicode_len();
    let mut start: usize = 0;
    assert(s@.skip(0) =~= s@);
    loop
        invariant
            n == s@.len(),
            start <= n,
            owner_lock_pid(s@) == owner_lock_pid(s@.skip(start as int)),
        decreases n - start,
    {
        let mut end: usize = start;
        let ghost rest = s@.skip(start as int);
        while end < n && s.get_char(end) != '\n'
            invariant
                n == s@.len(),
                start <= end <= n,
                rest == s@.skip(start as int),
                forall|i: int| 0 <= i < end - start ==> rest[i] != '\n',
            decreases n - end,
        {
            end = end + 1;
        }
        proof {
            lemma_first_line(rest, end - start);
        }
        let line = s.substring_char(start, end);
        assert(line@ =~= first_line(rest));
        let found = parse_owner_line(line);
        if found.is_some() {
            return found;
        }
        if end == n {
            return None;
        }
        assert(rest.skip(end - start + 1) =~= s@.skip(end + 1));
        start = end + 1;
    }
}

fn parse_owner_line(line: &str) -> (r: Option<u32>)
    ensures
        r == line_pid(line@),
{
    proof {
        reveal_strlit("pid=");
    }
    let n = line.unicode_len();
    if n < 4 {
        return None;
    }
    let head = line.substring_char(0, 4);
    assert("pid="@.is_prefix_of(line@) <==> head@ =~= "pid="@);
    if head.to_owned() == "pid=".to_owned() {
        let rest = line.substring_char(4, n);
        assert(rest@ =~= line@.skip(4));
        parse_pid(rest.trim())
    } else {
        None
    }
}

/// What the traces of a service process say.
#[derive(Debug, Clone, Copy, PartialEq, Eq, Structural)]
pub enum OwnerTrace {
    /// There are none.
    Absent,
    /// There are some, but they name no process.
    Unnamed,
    /// They name this process.
    Process(u32),
}

/// The process id that the pid file gives, or else the owner lock.
pub open spec fn owner_pid(pid_file: Option<Seq<char>>, owner_lock: Option<Seq<char>>) -> Option<
    u32,
> {
    let from_file = match pid_file {
        Some(s) => pid_value(trimmed(s)),
        None => None,
    };
    if from_file is Some {
        from_file
    } else {
        match owner_lock {
            Some(s) => owner_lock_pid(s),
            None => None,
        }
    }
}

/// Reads the traces of a service process: whether its two files are there, and
/// what could be read of them.
pub fn service_owner_trace(
    owner_lock_exists: bool,
    pid_file_exists: bool,
    pid_file: &Option<String>,
    owner_lock: &Option<String>,
) -> (r: OwnerTrace)
    ensures
        r == (if !owner_lock_exists && !pid_file_exists {
            OwnerTrace::Absent
        } else {
            match owner_pid(
                crate::text::text_view(*pid_file),
                crate::text::text_view(*owner_lock),
            ) {
                Some(pid) => OwnerTrace::Process(pid),
                None => OwnerTrace::Unnamed,
            }
        }),
{
    if !owner_lock_exists && !pid_file_exists {
        return OwnerTrace::Absent;
    }
    let from_file = match pid_file {
        Some(s) => parse_pid(s.as_str().trim()),
        None => None,
    };
    let pid = if from_file.is_some() {
        from_file
    } else {
        match owner_lock {
            Some(s) => parse_owner_lock(s.as_str()),
            None => None,
        }
    };
    match pid {
        Some(pid) => OwnerTrace::Process(pid),
        None => OwnerTrace::Unnamed,
    }
}

/// How looking at a process went.
#[derive(Debug, Clone, Copy, PartialEq, Eq, Structural)]
pub enum ProcessProbe {
    /// It could not be opened, with this error number.
    Refused { code: u32 },
    /// It was opened, but its exit code could not be read.
    Unreadable,
    /// Its exit code.
    ExitCode(u32),
}

/// Whether a process that a trace names is alive. One that may not be opened
/// counts as alive, one whose id is not in use does not.
pub open spec fn process_alive(probe: ProcessProbe) -> bool {
    match probe {
        ProcessProbe::Refused { code } => code != 87,
        ProcessProbe::Unreadable => false,
        ProcessProbe::ExitCode(code) => code == 259,
    }
}

/// Whether a service process is there, from its trace and, where the trace
/// names a process, a look at that process.
pub fn is_service_owner_present(trace: OwnerTrace, probe: ProcessProbe) -> (r: bool)
    ensures
        r == (match trace {
            OwnerTrace::Absent => false,
            OwnerTrace::Unnamed => true,
            OwnerTrace::Process(_) => process_alive(probe),
        }),
{
    match trace {
        OwnerTrace::Absent => false,
        OwnerTrace::Unnamed => true,
        OwnerTrace::Process(_) => match probe {
            ProcessProbe::Refused { code } => code != error_invalid_parameter(),
            ProcessProbe::Unreadable => false,
            ProcessProbe::ExitCode(code) => code == still_active(),
        },
    }
}

} // verus!
