//! What holds of reading the traces of a service as a whole.

use super::scm::{
    digits_value, first_line, line_pid, owner_lock_pid, owner_pid, pid_value, probed_state,
    process_alive, unsigned_digits, ProcessProbe, ScmProbe, WindowsScmServiceState,
};
use crate::error::{CoreError, Failure, Message, Note};
use crate::text::{decimal, trimmed};
use vstd::prelude::*;
use vstd::string::*;

verus! {

/// A service is absent only where the system says that it does not exist. It is
/// stopped only where the system says so; in any other state it is active, and
/// every other refusal is an error.
pub proof fn law_only_a_missing_service_is_absent(probe: ScmProbe)
    ensures
        probed_state(probe) == Ok::<WindowsScmServiceState, CoreError>(
            WindowsScmServiceState::Absent,
        ) <==> probe is ServiceRefused && probe->code == 1060,
        probed_state(probe) == Ok::<WindowsScmServiceState, CoreError>(
            WindowsScmServiceState::Stopped,
        ) <==> probe == (ScmProbe::Status { current_state: 1 }),
        probe is Status ==> probed_state(probe) is Ok,
        match probe {
            ScmProbe::ManagerRefused(failure) => refused(probe, Note::ScmOpen, failure),
            ScmProbe::ServiceRefused { code, failure } => code != 1060 ==> refused(
                probe,
                Note::ScmServiceOpen,
                failure,
            ),
            ScmProbe::StatusRefused(failure) => refused(probe, Note::ScmQuery, failure),
            ScmProbe::Status { .. } => true,
        },
{
}

/// Whether a probe comes to an error that tells of `failure` under `note`.
pub open spec fn refused(probe: ScmProbe, note: Note, failure: Failure) -> bool {
    probed_state(probe) == Err::<WindowsScmServiceState, CoreError>(
        CoreError::Context(Message::Note(note), Box::new(CoreError::Outside(failure))),
    )
}

/// A process is alive where its exit code says that it is still active, or
/// where it exists but may not be opened; one whose id is not in use, or whose
/// exit code cannot be read, is not.
pub proof fn law_process_is_alive_until_it_exits(code: u32)
    ensures
        process_alive(ProcessProbe::ExitCode(code)) <==> code == 259,
        process_alive(ProcessProbe::Refused { code }) <==> code != 87,
        !process_alive(ProcessProbe::Unreadable),
{
}

/// A process id that is written in decimal is read, with or without a plus sign
/// before it; a number that is no process id is not.
pub proof fn law_written_pid_is_read(n: nat)
    ensures
        n <= u32::MAX ==> pid_value(decimal(n)) == Some(n as u32),
        n <= u32::MAX ==> pid_value(seq!['+'] + decimal(n)) == Some(n as u32),
        n > u32::MAX ==> pid_value(decimal(n)) is None,
{
    let d = decimal(n);
    crate::text_laws::law_written_number_reads_back(n);
    lemma_all_digits(d);
    assert(unsigned_digits(d) == d);
    assert((seq!['+'] + d).drop_first() =~= d);
}

proof fn lemma_all_digits(s: Seq<char>)
    requires
        digits_value(s) is Some,
    ensures
        s.len() > 0,
        forall|i: int| 0 <= i < s.len() ==> '0' <= #[trigger] s[i] <= '9',
    decreases s.len(),
{
    if s.len() > 1 {
        lemma_all_digits(s.drop_last());
        assert forall|i: int| 0 <= i < s.len() implies '0' <= #[trigger] s[i] <= '9' by {
            if i < s.len() - 1 {
                assert(s.drop_last()[i] == s[i]);
            }
        }
    }
}

/// Nothing but digits, after a plus sign at most, is read as a process id.
pub proof fn law_only_digits_are_a_pid(s: Seq<char>)
    requires
        pid_value(s) is Some,
    ensures
        unsigned_digits(s).len() > 0,
        forall|i: int|
            0 <= i < unsigned_digits(s).len() ==> '0' <= #[trigger] unsigned_digits(s)[i] <= '9',
        unsigned_digits(s) == s || s[0] == '+' && s.skip(1) == unsigned_digits(s),
{
    lemma_all_digits(unsigned_digits(s));
    if s.len() > 0 && s[0] == '+' {
        assert(s.skip(1) =~= s.drop_first());
    }
}

proof fn lemma_line(line: Seq<char>, rest: Seq<char>)
    requires
        forall|i: int| 0 <= i < line.len() ==> line[i] != '\n',
    ensures
        first_line(line) == line,
        first_line(line + seq!['\n'] + rest) == line,
    decreases line.len(),
{
    let all = line + seq!['\n'] + rest;
    if line.len() > 0 {
        let shorter = line.drop_first();
        assert(all.drop_first() =~= shorter + seq!['\n'] + rest);
        lemma_line(shorter, rest);
        assert(all[0] == line[0]);
        assert(seq![line[0]] + shorter =~= line);
    } else {
        assert(all[0] == '\n');
        assert(line =~= Seq::empty());
    }
}

/// An owner lock gives the process id of its first line that gives one.
pub proof fn law_first_line_with_a_pid_counts(line: Seq<char>, rest: Seq<char>)
    requires
        forall|i: int| 0 <= i < line.len() ==> line[i] != '\n',
    ensures
        owner_lock_pid(line) == line_pid(line),
        line_pid(line) is Some ==> owner_lock_pid(line + seq!['\n'] + rest) == line_pid(line),
        line_pid(line) is None ==> owner_lock_pid(line + seq!['\n'] + rest) == owner_lock_pid(rest),
{
    let all = line + seq!['\n'] + rest;
    lemma_line(line, rest);
    assert(all.skip(line.len() as int + 1) =~= rest);
}

/// A line gives the process id that stands behind `pid=`, white space aside,
/// and no other line gives one.
pub proof fn law_line_gives_what_stands_behind_its_mark(text: Seq<char>)
    ensures
        line_pid("pid="@ + text) == pid_value(trimmed(text)),
        !"pid="@.is_prefix_of(text) ==> line_pid(text) is None,
{
    reveal_strlit("pid=");
    assert(("pid="@ + text).skip(4) =~= text);
    assert("pid="@.is_prefix_of("pid="@ + text));
}

/// The pid file counts first, and the owner lock only where the file gives no
/// process id.
pub proof fn law_pid_file_counts_first(
    pid_file: Option<Seq<char>>,
    lock: Option<Seq<char>>,
)
    ensures
        pid_file is Some && pid_value(trimmed(pid_file->0)) is Some ==> owner_pid(pid_file, lock)
            == pid_value(trimmed(pid_file->0)),
        (pid_file is None || pid_value(trimmed(pid_file->0)) is None) && lock is Some
            ==> owner_pid(pid_file, lock) == owner_lock_pid(lock->0),
        (pid_file is None || pid_value(trimmed(pid_file->0)) is None) && lock is None
            ==> owner_pid(pid_file, lock) is None,
{
}

} // verus!
