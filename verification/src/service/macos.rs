//! Paths and shell scripts of macOS.

use crate::error::{CoreError, Message};
use crate::platform::Platform;
use crate::text::{decimal_text, join, replace_char, same_text};
use vstd::prelude::*;
use vstd::string::*;

verus! {

/// What stands between the slashes of a path.
pub open spec fn segments(path: Seq<char>) -> Seq<Seq<char>>
    decreases path.len(),
{
    if path.len() == 0 {
        seq![Seq::empty()]
    } else {
        let earlier = segments(path.drop_last());
        if path.last() == '/' {
            earlier.push(Seq::empty())
        } else {
            earlier.drop_last().push(earlier.last().push(path.last()))
        }
    }
}

proof fn lemma_segments_len(path: Seq<char>)
    ensures
        segments(path).len() > 0,
    decreases path.len(),
{
    if path.len() > 0 {
        lemma_segments_len(path.drop_last());
    }
}

/// Splits a path at its slashes.
pub fn path_segments(path: &str) -> (r: Vec<String>)
    ensures
        crate::text::texts(r@) == segments(path@),
{
    let n = path.unicode_len();
    let mut done: Vec<String> = Vec::new();
    let mut current = String::new();
    let mut i: usize = 0;
    assert(path@.take(0) =~= Seq::empty());
    assert(crate::text::texts(done@).push(current@) =~= segments(path@.take(0)));
    while i < n
        invariant
            n == path@.len(),
            i <= n,
            crate::text::texts(done@).push(current@) =~= segments(path@.take(i as int)),
        decreases n - i,
    {
        let ghost earlier = segments(path@.take(i as int));
        assert(path@.take(i + 1).drop_last() =~= path@.take(i as int));
        assert(earlier.drop_last() =~= crate::text::texts(done@));
        assert(earlier.last() == current@);
        let ghost before = done@;
        let ghost now = current@;
        if path.get_char(i) == '/' {
            done.push(current);
            current = String::new();
            assert(crate::text::texts(done@) =~= crate::text::texts(before).push(now));
        } else {
            let c = path.substring_char(i, i + 1);
            assert(c@ =~= seq![path@[i as int]]);
            current.append(c);
            assert(current@ =~= now.push(path@[i as int]));
        }
        i = i + 1;
        assert(crate::text::texts(done@).push(current@) =~= segments(path@.take(i as int)));
    }
    assert(path@.take(i as int) =~= path@);
    let ghost before = done@;
    let ghost now = current@;
    done.push(current);
    assert(crate::text::texts(done@) =~= crate::text::texts(before).push(now));
    done
}

/// Whether macOS runs the application from a temporary place.
pub fn is_macos_app_translocated(path: &str) -> (r: bool)
    ensures
        r == segments(path@).contains("AppTranslocation"@),
{
    let parts = path_segments(path);
    let mut i: usize = 0;
    while i < parts.len()
        invariant
            i <= parts.len(),
            crate::text::texts(parts@) == segments(path@),
            forall|j: int| 0 <= j < i ==> segments(path@)[j] != "AppTranslocation"@,
        decreases parts.len() - i,
    {
        assert(segments(path@)[i as int] == parts@[i as int]@);
        if same_text(parts[i].as_str(), "AppTranslocation") {
            return true;
        }
        i = i + 1;
    }
    false
}

/// Whether `c` is the letter `lower`, in either case.
pub open spec fn is_letter(c: char, lower: char, upper: char) -> bool {
    c == lower || c == upper
}

/// Whether a segment names an application bundle: it has the extension `app`,
/// in any case.
pub open spec fn names_bundle(segment: Seq<char>) -> bool {
    let n = segment.len();
    &&& n >= 5
    &&& segment[n - 4] == '.'
    &&& is_letter(segment[n - 3], 'a', 'A')
    &&& is_letter(segment[n - 2], 'p', 'P')
    &&& is_letter(segment[n - 1], 'p', 'P')
}

fn is_bundle(segment: &str) -> (r: bool)
    ensures
        r == names_bundle(segment@),
{
    let n = segment.unicode_len();
    if n < 5 {
        return false;
    }
    let a = segment.get_char(n - 3);
    let p = segment.get_char(n - 2);
    let q = segment.get_char(n - 1);
    segment.get_char(n - 4) == '.' && (a == 'a' || a == 'A') && (p == 'p' || p == 'P') && (q == 'p'
        || q == 'P')
}

/// The innermost of the segments that names an application bundle.
pub open spec fn innermost_bundle(parts: Seq<Seq<char>>) -> Option<Seq<char>>
    decreases parts.len(),
{
    if parts.len() == 0 {
        None
    } else if names_bundle(parts.last()) {
        Some(parts.last())
    } else {
        innermost_bundle(parts.drop_last())
    }
}

/// The name of the application bundle that a path lies in, or is.
pub fn macos_app_bundle_name(path: &str) -> (r: Option<String>)
    ensures
        crate::text::text_view(r) == innermost_bundle(segments(path@)),
{
    let parts = path_segments(path);
    let ghost all = segments(path@);
    let mut i: usize = parts.len();
    assert(all.take(i as int) =~= all);
    while i > 0
        invariant
            i <= parts.len(),
            all == segments(path@),
            crate::text::texts(parts@) == all,
            innermost_bundle(all.take(i as int)) == innermost_bundle(all),
        decreases i,
    {
        assert(all.take(i as int).last() == parts@[i - 1]@);
        assert(all.take(i as int).drop_last() =~= all.take(i - 1));
        if is_bundle(parts[i - 1].as_str()) {
            return Some(parts[i - 1].clone());
        }
        i = i - 1;
    }
    None
}

/// A path and a relative path behind it; an absolute path stands for itself.
pub open spec fn joined_path(base: Seq<char>, rest: Seq<char>) -> Seq<char> {
    if rest.len() > 0 && rest[0] == '/' {
        rest
    } else if base.len() == 0 || base.last() == '/' {
        base + rest
    } else {
        base + "/"@ + rest
    }
}

/// Joins two paths.
pub fn join_path(base: &str, rest: &str) -> (r: String)
    ensures
        r@ == joined_path(base@, rest@),
{
    let n = base.unicode_len();
    if rest.unicode_len() > 0 && rest.get_char(0) == '/' {
        return rest.to_owned();
    }
    let mut r = base.to_owned();
    if n == 0 || base.get_char(n - 1) == '/' {
        r.append(rest);
    } else {
        r.append("/");
        r.append(rest);
    }
    r
}

/// Where the core lies in an application bundle under `root`.
pub open spec fn bundled_core(root: Seq<char>, bundle: Seq<char>, binary: Seq<char>) -> Seq<char> {
    joined_path(
        joined_path(joined_path(joined_path(root, bundle), "Contents"@), "MacOS"@),
        binary,
    )
}

fn bundled_core_path(root: &str, bundle: &str, binary: &str) -> (r: String)
    ensures
        r@ == bundled_core(root@, bundle@, binary@),
{
    let in_root = join_path(root, bundle);
    let contents = join_path(in_root.as_str(), "Contents");
    let macos = join_path(contents.as_str(), "MacOS");
    join_path(macos.as_str(), binary)
}

/// The core's path under the first of the roots under which it is a file.
pub open spec fn first_core_path(
    bundle: Seq<char>,
    binary: Seq<char>,
    roots: Seq<Seq<char>>,
    is_file: Seq<bool>,
) -> Option<Seq<char>>
    decreases roots.len(),
{
    if roots.len() == 0 || is_file.len() == 0 {
        None
    } else if is_file[0] {
        Some(bundled_core(roots[0], bundle, binary))
    } else {
        first_core_path(bundle, binary, roots.drop_first(), is_file.drop_first())
    }
}

/// The paths under which the core may lie, one for each root.
pub fn macos_core_path_candidates(
    bundle_name: &str,
    binary_name: &str,
    install_roots: &Vec<String>,
) -> (r: Vec<String>)
    ensures
        r@.len() == install_roots@.len(),
        forall|i: int|
            0 <= i < r@.len() ==> (#[trigger] r@[i])@ == bundled_core(
                install_roots@[i]@,
                bundle_name@,
                binary_name@,
            ),
{
    let mut r: Vec<String> = Vec::new();
    let mut i: usize = 0;
    while i < install_roots.len()
        invariant
            i <= install_roots.len(),
            r@.len() == i,
            forall|j: int|
                0 <= j < i ==> (#[trigger] r@[j])@ == bundled_core(
                    install_roots@[j]@,
                    bundle_name@,
                    binary_name@,
                ),
        decreases install_roots.len() - i,
    {
        r.push(bundled_core_path(install_roots[i].as_str(), bundle_name, binary_name));
        i = i + 1;
    }
    r
}

/// Finds the core under the roots where applications are installed; `is_file`
/// says, root by root, whether it is a file there.
pub fn macos_core_path_in_install_roots(
    bundle_name: &str,
    binary_name: &str,
    install_roots: &Vec<String>,
    is_file: &Vec<bool>,
) -> (r: Option<String>)
    ensures
        crate::text::text_view(r) == first_core_path(
            bundle_name@,
            binary_name@,
            crate::text::texts(install_roots@),
            is_file@,
        ),
{
    let ghost roots = crate::text::texts(install_roots@);
    let mut i: usize = 0;
    assert(roots.skip(0) =~= roots);
    assert(is_file@.skip(0) =~= is_file@);
    while i < install_roots.len() && i < is_file.len()
        invariant
            i <= install_roots.len(),
            i <= is_file.len(),
            roots == crate::text::texts(install_roots@),
            first_core_path(bundle_name@, binary_name@, roots, is_file@) == first_core_path(
                bundle_name@,
                binary_name@,
                roots.skip(i as int),
                is_file@.skip(i as int),
            ),
        decreases install_roots.len() - i,
    {
        assert(roots.skip(i as int).drop_first() =~= roots.skip(i + 1));
        assert(is_file@.skip(i as int).drop_first() =~= is_file@.skip(i + 1));
        if is_file[i] {
            return Some(bundled_core_path(install_roots[i].as_str(), bundle_name, binary_name));
        }
        i = i + 1;
    }
    None
}

/// The roots where applications are installed.
pub open spec fn application_roots() -> Seq<Seq<char>> {
    seq!["/Applications"@, "/Applications/Utilities"@]
}

/// The roots where applications are installed.
pub fn install_roots() -> (r: Vec<String>)
    ensures
        crate::text::texts(r@) == application_roots(),
{
    let mut r: Vec<String> = Vec::new();
    r.push("/Applications".to_owned());
    r.push("/Applications/Utilities".to_owned());
    assert(crate::text::texts(r@) =~= application_roots());
    r
}

/// The lasting path of the core of an application that runs from a temporary
/// place; `is_file` says, for each root where applications are installed,
/// whether the core is a file there.
pub open spec fn lasting_core_path(
    exe_path: Seq<char>,
    binary: Seq<char>,
    is_file: Seq<bool>,
) -> Option<Seq<char>> {
    match innermost_bundle(segments(exe_path)) {
        Some(bundle) => first_core_path(bundle, binary, application_roots(), is_file),
        None => None,
    }
}

/// Finds the lasting path of the core of an application that runs from a
/// temporary place.
pub fn stable_macos_core_path_for_translocated_app(
    exe_path: &str,
    binary_name: &str,
    is_file: &Vec<bool>,
) -> (r: Option<String>)
    ensures
        crate::text::text_view(r) == lasting_core_path(exe_path@, binary_name@, is_file@),
{
    match macos_app_bundle_name(exe_path) {
        Some(bundle) => macos_core_path_in_install_roots(
            bundle.as_str(),
            binary_name,
            &install_roots(),
            is_file,
        ),
        None => None,
    }
}

/// The file name of a core.
pub open spec fn core_binary(platform: Platform, core: Seq<char>) -> Seq<char> {
    if platform is Windows {
        core + ".exe"@
    } else {
        core
    }
}

/// The file name of a core.
pub fn core_binary_name(platform: Platform, clash_core: &str) -> (r: String)
    ensures
        r@ == core_binary(platform, clash_core@),
{
    let mut r = clash_core.to_owned();
    match platform {
        Platform::Windows => {
            r.append(".exe");
        },
        _ => {},
    }
    r
}

/// The path of the core that the service is to run. That is `candidate`, the
/// one beside the application at `exe_path`; but macOS may run the application
/// from a temporary place, and then it is the lasting one, or none at all.
/// `quoted` is `candidate` in quotes.
pub fn service_core_path(
    platform: Platform,
    exe_path: &str,
    binary_name: &str,
    candidate: String,
    quoted: String,
    is_file: &Vec<bool>,
) -> (r: Result<String, CoreError>)
    ensures
        ({
            let temporary = platform is MacOs && segments(exe_path@).contains("AppTranslocation"@);
            let lasting = lasting_core_path(exe_path@, binary_name@, is_file@);
            match r {
                Ok(path) => if !temporary {
                    path == candidate
                } else {
                    lasting == Some(path@)
                },
                Err(error) => temporary && lasting is None && error == CoreError::Plain(
                    (Message::TranslocatedCore { candidate: quoted }),
                ),
            }
        }),
{
    let macos = match platform {
        Platform::MacOs => true,
        _ => false,
    };
    if !macos || !is_macos_app_translocated(exe_path) {
        return Ok(candidate);
    }
    match stable_macos_core_path_for_translocated_app(exe_path, binary_name, is_file) {
        Some(path) => Ok(path),
        None => Err(CoreError::Plain(Message::TranslocatedCore { candidate: quoted })),
    }
}

/// The script that puts aside a saved state of the service that names a
/// temporary place.
pub open spec fn cleanup_script() -> Seq<char> {
    "for f in '/var/root/.local/state/clash-verge-service/desired-state.json' '/var/lib/clash-verge-service/desired-state.json'; do if [ -f \"$f\" ] && /usr/bin/grep -q AppTranslocation \"$f\"; then backup=\"$f.apptranslocation.bak\"; if [ -e \"$backup\" ]; then backup=\"$f.apptranslocation.$(/bin/date +%s).bak\"; fi; /bin/mv \"$f\" \"$backup\"; fi; done"@
}

/// The script that puts aside a saved state of the service that names a
/// temporary place.
pub fn macos_cleanup_translocated_desired_state_shell() -> (r: &'static str)
    ensures
        r@ == cleanup_script(),
        r@ == "for f in '/var/root/.local/state/clash-verge-service/desired-state.json' '/var/lib/clash-verge-service/desired-state.json'; do if [ -f \"$f\" ] && /usr/bin/grep -q AppTranslocation \"$f\"; then backup=\"$f.apptranslocation.bak\"; if [ -e \"$backup\" ]; then backup=\"$f.apptranslocation.$(/bin/date +%s).bak\"; fi; /bin/mv \"$f\" \"$backup\"; fi; done"@,
{
    "for f in '/var/root/.local/state/clash-verge-service/desired-state.json' '/var/lib/clash-verge-service/desired-state.json'; do if [ -f \"$f\" ] && /usr/bin/grep -q AppTranslocation \"$f\"; then backup=\"$f.apptranslocation.bak\"; if [ -e \"$backup\" ]; then backup=\"$f.apptranslocation.$(/bin/date +%s).bak\"; fi; /bin/mv \"$f\" \"$backup\"; fi; done"
}

/// The command that ends a core that root owns.
pub open spec fn kill_command(core: Seq<char>) -> Seq<char> {
    "/usr/bin/pkill -U root -x "@ + core + " 2>/dev/null || true"@
}

/// The command that removes a socket.
pub open spec fn remove_command(ipc: Seq<char>) -> Seq<char> {
    "/bin/rm -f "@ + single_quoted(ipc) + " 2>/dev/null || true"@
}

/// The commands that end every core and remove the socket, if there is one.
pub open spec fn force_stop_commands(cores: Seq<Seq<char>>, ipc: Option<Seq<char>>) -> Seq<
    Seq<char>,
> {
    let kills = cores.map_values(|core: Seq<char>| kill_command(core));
    match ipc {
        Some(ipc) => kills.push(remove_command(ipc)),
        None => kills,
    }
}

/// The script that cleans up after the service: it ends the cores that root
/// owns and removes the socket, where its path is known.
pub fn macos_force_stop_core_shell(cores: &Vec<String>, ipc: Option<&str>) -> (r: String)
    ensures
        r@ == crate::text::joined(
            force_stop_commands(crate::text::texts(cores@), crate::text::str_view(ipc)),
            "; "@,
        ),
{
    let mut parts: Vec<String> = Vec::new();
    let ghost kills = crate::text::texts(cores@).map_values(|core: Seq<char>| kill_command(core));
    let mut i: usize = 0;
    assert(crate::text::texts(parts@) =~= kills.take(0));
    while i < cores.len()
        invariant
            i <= cores.len(),
            kills == crate::text::texts(cores@).map_values(|core: Seq<char>| kill_command(core)),
            crate::text::texts(parts@) =~= kills.take(i as int),
        decreases cores.len() - i,
    {
        let ghost before = parts@;
        let mut part = "/usr/bin/pkill -U root -x ".to_owned();
        part.append(cores[i].as_str());
        part.append(" 2>/dev/null || true");
        let ghost added = part@;
        parts.push(part);
        assert(crate::text::texts(parts@) =~= crate::text::texts(before).push(added));
        i = i + 1;
    }
    assert(kills.take(i as int) =~= kills);
    match ipc {
        Some(ipc) => {
            let ghost before = parts@;
            let mut part = "/bin/rm -f ".to_owned();
            part.append(shell_single_quote(ipc).as_str());
            part.append(" 2>/dev/null || true");
            let ghost added = part@;
            parts.push(part);
            assert(crate::text::texts(parts@) =~= crate::text::texts(before).push(added));
        },
        None => {},
    }
    join(&parts, "; ")
}

/// `value` with a backslash before each backslash and each double quote.
pub open spec fn osascript_escaped(value: Seq<char>) -> Seq<char> {
    crate::text::replaced(crate::text::replaced(value, '\\', "\\\\"@), '"', "\\\""@)
}

/// Escapes a text for use in an AppleScript string.
pub fn escape_osascript_double_quoted_string(value: &str) -> (r: String)
    ensures
        r@ == osascript_escaped(value@),
{
    let backslashes = replace_char(value, '\\', "\\\\");
    replace_char(backslashes.as_str(), '"', "\\\"")
}

/// `value` between single quotes, each of its own single quotes replaced by
/// one that stands outside of them.
pub open spec fn single_quoted(value: Seq<char>) -> Seq<char> {
    "'"@ + crate::text::replaced(value, '\'', "'\\''"@) + "'"@
}

/// Quotes a text as one word of a shell command.
pub fn shell_single_quote(value: &str) -> (r: String)
    ensures
        r@ == single_quoted(value@),
{
    let mut r = "'".to_owned();
    r.append(replace_char(value, '\'', "'\\''").as_str());
    r.append("'");
    r
}

/// The AppleScript command that runs a shell command with administrator
/// rights, asking for them with `prompt`.
pub open spec fn privileged_command(shell: Seq<char>, prompt: Seq<char>) -> Seq<char> {
    "do shell script \""@ + osascript_escaped(shell)
        + "\" with administrator privileges with prompt \""@ + prompt + "\""@
}

fn privileged(shell: &str, prompt: &str) -> (r: String)
    ensures
        r@ == privileged_command(shell@, prompt@),
{
    let mut r = "do shell script \"".to_owned();
    r.append(escape_osascript_double_quoted_string(shell).as_str());
    r.append("\" with administrator privileges with prompt \"");
    r.append(prompt);
    r.append("\"");
    r
}

/// The AppleScript command that cleans up after the service and uninstalls it.
pub fn macos_uninstall_command(
    uninstaller: &str,
    prompt: &str,
    cores: &Vec<String>,
    ipc: Option<&str>,
) -> (r: String)
    ensures
        r@ == privileged_command(
            crate::text::joined(
                force_stop_commands(crate::text::texts(cores@), crate::text::str_view(ipc)),
                "; "@,
            ) + "; sudo "@ + single_quoted(uninstaller@),
            prompt@,
        ),
{
    let mut shell = macos_force_stop_core_shell(cores, ipc);
    shell.append("; sudo ");
    shell.append(shell_single_quote(uninstaller).as_str());
    privileged(shell.as_str(), prompt)
}

/// The AppleScript command that installs the service for the group `gid`.
pub fn macos_install_command(installer: &str, prompt: &str, gid: u32) -> (r: String)
    ensures
        r@ == privileged_command(
            cleanup_script() + "; sudo CLASH_VERGE_SERVICE_GID="@ + crate::text::decimal(gid as nat) + " "@
                + single_quoted(installer@),
            prompt@,
        ),
{
    let mut shell = macos_cleanup_translocated_desired_state_shell().to_owned();
    shell.append("; sudo CLASH_VERGE_SERVICE_GID=");
    shell.append(decimal_text(gid as u64).as_str());
    shell.append(" ");
    shell.append(shell_single_quote(installer).as_str());
    privileged(shell.as_str(), prompt)
}

} // verus!
