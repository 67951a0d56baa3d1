//! What holds of the paths and scripts of macOS as a whole.

use super::macos::{
    application_roots, bundled_core, core_binary, first_core_path, force_stop_commands,
    innermost_bundle, joined_path, lasting_core_path, names_bundle, osascript_escaped,
    privileged_command, segments, single_quoted,
};
use crate::platform::Platform;
use crate::text::joined;
use vstd::prelude::*;
use vstd::string::*;

verus! {

/// A path is its segments with slashes between them, and no segment has a slash
/// in it.
pub proof fn law_path_is_its_segments(path: Seq<char>)
    ensures
        segments(path).len() > 0,
        joined(segments(path), "/"@) == path,
        forall|i: int|
            0 <= i < segments(path).len() ==> !(#[trigger] segments(path)[i]).contains('/'),
    decreases path.len(),
{
    reveal_strlit("/");
    let parts = segments(path);
    if path.len() > 0 {
        let earlier = segments(path.drop_last());
        law_path_is_its_segments(path.drop_last());
        if path.last() == '/' {
            assert(parts.drop_last() =~= earlier);
            assert(joined(parts, "/"@) =~= path);
        } else {
            let head = earlier.drop_last();
            let last = earlier.last();
            assert(parts.drop_last() =~= head);
            assert(parts.last() =~= last.push(path.last()));
            assert(path =~= path.drop_last().push(path.last()));
            if head.len() == 0 {
                assert(joined(earlier, "/"@) == last);
                assert(parts[0] == parts.last());
                assert(joined(parts, "/"@) == last.push(path.last()));
            } else {
                assert(joined(earlier, "/"@) == joined(head, "/"@) + "/"@ + last);
                assert(joined(parts, "/"@) == joined(head, "/"@) + "/"@ + last.push(path.last()));
                assert(joined(parts, "/"@) =~= joined(earlier, "/"@).push(path.last()));
            }
            assert forall|i: int| 0 <= i < parts.len() implies !(#[trigger] parts[i]).contains(
                '/',
            ) by {
                if i < head.len() {
                    assert(parts[i] == earlier[i]);
                } else {
                    assert(!earlier[earlier.len() - 1].contains('/'));
                    if parts[i].contains('/') {
                        let j = choose|j: int| 0 <= j < parts[i].len() && parts[i][j] == '/';
                        assert(last[j] == '/');
                    }
                }
            }
        }
    }
}

/// A bundle has a name and the extension `app`, in any case.
pub proof fn law_bundle_has_its_extension(name: Seq<char>, segment: Seq<char>)
    ensures
        name.len() > 0 ==> names_bundle(name + ".app"@) && names_bundle(name + ".APP"@),
        !names_bundle(".app"@),
        names_bundle(segment) ==> segment.len() > 4 && segment[segment.len() - 4] == '.',
        names_bundle(segment) ==> {
            let end = segment.skip(segment.len() - 3);
            &&& end[0] == 'a' || end[0] == 'A'
            &&& end[1] == 'p' || end[1] == 'P'
            &&& end[2] == 'p' || end[2] == 'P'
        },
{
    reveal_strlit(".app");
    reveal_strlit(".APP");
}

/// The bundle that a path lies in is the last of its segments that names one;
/// there is none exactly where no segment does.
pub proof fn law_innermost_bundle_is_the_last(parts: Seq<Seq<char>>)
    ensures
        match innermost_bundle(parts) {
            Some(bundle) => exists|i: int|
                #![trigger parts[i]]
                0 <= i < parts.len() && parts[i] == bundle && names_bundle(bundle) && forall|j: int|
                    i < j < parts.len() ==> !names_bundle(#[trigger] parts[j]),
            None => forall|j: int| 0 <= j < parts.len() ==> !names_bundle(#[trigger] parts[j]),
        },
    decreases parts.len(),
{
    if parts.len() > 0 {
        let n = parts.len() - 1;
        if names_bundle(parts.last()) {
            assert(parts[n] == parts.last());
        } else {
            let rest = parts.drop_last();
            law_innermost_bundle_is_the_last(rest);
            if innermost_bundle(rest) is Some {
                let bundle = innermost_bundle(rest)->0;
                let i = choose|i: int|
                    #![trigger rest[i]]
                    0 <= i < rest.len() && rest[i] == bundle && names_bundle(bundle)
                        && forall|j: int|
                        i < j < rest.len() ==> !names_bundle(#[trigger] rest[j]);
                assert(parts[i] == bundle);
                assert forall|j: int| i < j < parts.len() implies !names_bundle(
                    #[trigger] parts[j],
                ) by {
                    if j < n {
                        assert(rest[j] == parts[j]);
                    }
                }
            } else {
                assert forall|j: int| 0 <= j < parts.len() implies !names_bundle(
                    #[trigger] parts[j],
                ) by {
                    if j < n {
                        assert(rest[j] == parts[j]);
                    }
                }
            }
        }
    }
}

/// A relative path stands behind the other with one slash between them, and an
/// absolute one by itself.
pub proof fn law_joined_paths_have_one_slash(base: Seq<char>, rest: Seq<char>)
    ensures
        rest.len() > 0 && rest[0] == '/' ==> joined_path(base, rest) == rest,
        !(rest.len() > 0 && rest[0] == '/') && base.len() > 0 && base.last() == '/' ==> joined_path(
            base,
            rest,
        ) == base + rest,
        !(rest.len() > 0 && rest[0] == '/') && base.len() > 0 && base.last() != '/' ==> joined_path(
            base,
            rest,
        ) == base + "/"@ + rest,
        base.len() == 0 ==> joined_path(base, rest) == rest,
{
    assert(base.len() == 0 ==> base + rest =~= rest);
}

/// The core of an application lies in its bundle, where the programs of a
/// bundle lie.
pub proof fn law_core_lies_in_the_bundle(root: Seq<char>, bundle: Seq<char>, binary: Seq<char>)
    requires
        root.len() > 0,
        root.last() != '/',
        bundle.len() > 0,
        bundle[0] != '/',
        bundle.last() != '/',
        binary.len() > 0,
        binary[0] != '/',
    ensures
        bundled_core(root, bundle, binary) == root + "/"@ + bundle + "/"@ + "Contents"@ + "/"@
            + "MacOS"@ + "/"@ + binary,
{
    reveal_strlit("Contents");
    reveal_strlit("MacOS");
    reveal_strlit("/");
    let a = root + "/"@ + bundle;
    let b = a + "/"@ + "Contents"@;
    let c = b + "/"@ + "MacOS"@;
    assert(a.last() == bundle.last());
    assert(b.last() == 's');
    assert(c.last() == 'S');
    assert(bundled_core(root, bundle, binary) =~= c + "/"@ + binary);
}

/// The core is found under the first root under which it is a file, and not at
/// all where it is one under none.
pub proof fn law_first_root_with_the_core_counts(
    bundle: Seq<char>,
    binary: Seq<char>,
    roots: Seq<Seq<char>>,
    is_file: Seq<bool>,
    i: int,
)
    requires
        roots.len() == is_file.len(),
        0 <= i <= roots.len(),
        forall|j: int| 0 <= j < i ==> !is_file[j],
        i < roots.len() ==> is_file[i],
    ensures
        i < roots.len() ==> first_core_path(bundle, binary, roots, is_file) == Some(
            bundled_core(roots[i], bundle, binary),
        ),
        i == roots.len() ==> first_core_path(bundle, binary, roots, is_file) is None,
    decreases i,
{
    if i > 0 {
        law_first_root_with_the_core_counts(
            bundle,
            binary,
            roots.drop_first(),
            is_file.drop_first(),
            i - 1,
        );
    }
}

/// The lasting core of an application is looked for under the name of its
/// bundle, in the applications and then in the utilities.
pub proof fn law_lasting_core_is_among_the_applications(
    exe_path: Seq<char>,
    binary: Seq<char>,
    is_file: Seq<bool>,
)
    ensures
        application_roots() == seq!["/Applications"@, "/Applications/Utilities"@],
        innermost_bundle(segments(exe_path)) is None ==> lasting_core_path(
            exe_path,
            binary,
            is_file,
        ) is None,
        innermost_bundle(segments(exe_path)) matches Some(bundle) ==> {
            &&& is_file.len() == 2 && is_file[0] ==> lasting_core_path(exe_path, binary, is_file)
                == Some(bundled_core("/Applications"@, bundle, binary))
            &&& is_file.len() == 2 && !is_file[0] && is_file[1] ==> lasting_core_path(
                exe_path,
                binary,
                is_file,
            ) == Some(bundled_core("/Applications/Utilities"@, bundle, binary))
            &&& is_file.len() == 2 && !is_file[0] && !is_file[1] ==> lasting_core_path(
                exe_path,
                binary,
                is_file,
            ) is None
        },
{
    if innermost_bundle(segments(exe_path)) is Some && is_file.len() == 2 {
        let bundle = innermost_bundle(segments(exe_path))->0;
        let i = if is_file[0] {
            0int
        } else if is_file[1] {
            1int
        } else {
            2int
        };
        law_first_root_with_the_core_counts(bundle, binary, application_roots(), is_file, i);
    }
}

/// A program has the extension `exe` on Windows, and none elsewhere.
pub proof fn law_programs_have_an_extension_on_windows(platform: Platform, core: Seq<char>)
    ensures
        platform is Windows ==> core_binary(platform, core) == core + ".exe"@,
        !(platform is Windows) ==> core_binary(platform, core) == core,
{
}

/// Cleaning up after the service ends every core, one after the other, and then
/// removes the socket, where there is one.
pub proof fn law_every_core_is_ended(
    cores: Seq<Seq<char>>,
    ipc: Option<Seq<char>>,
    i: int,
)
    requires
        0 <= i < cores.len(),
    ensures
        ({
            let commands = force_stop_commands(cores, ipc);
            &&& commands[i] == "/usr/bin/pkill -U root -x "@ + cores[i] + " 2>/dev/null || true"@
            &&& ipc is None ==> commands.len() == cores.len()
            &&& ipc matches Some(path) ==> commands.len() == cores.len() + 1 && commands.last()
                == "/bin/rm -f "@ + single_quoted(path) + " 2>/dev/null || true"@
        }),
{
}

/// A shell command that needs rights is run by AppleScript with administrator
/// rights, asked for with the prompt.
pub proof fn law_rights_are_asked_for_with_a_prompt(shell: Seq<char>, prompt: Seq<char>)
    ensures
        privileged_command(shell, prompt) == "do shell script \""@ + osascript_escaped(shell)
            + "\" with administrator privileges with prompt \""@ + prompt + "\""@,
{
}

} // verus!
