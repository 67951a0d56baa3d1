//! What is quoted reads as what it was.

use super::macos::{osascript_escaped, single_quoted};
use crate::text::replaced;
use vstd::prelude::*;
use vstd::string::*;

verus! {

/// What AppleScript has read of the inside of a string: the text so far,
/// whether a backslash is to be followed by a character, and whether a double
/// quote has ended the string.
pub struct AppleScriptReading {
    pub text: Seq<char>,
    pub escaping: bool,
    pub ended: bool,
}

/// How AppleScript reads the inside of a string: a backslash lets the next
/// character stand for itself, and a double quote ends the string.
pub open spec fn applescript_reading(s: Seq<char>) -> AppleScriptReading
    decreases s.len(),
{
    if s.len() == 0 {
        AppleScriptReading { text: Seq::empty(), escaping: false, ended: false }
    } else {
        let before = applescript_reading(s.drop_last());
        if before.ended {
            before
        } else if before.escaping {
            AppleScriptReading { text: before.text.push(s.last()), escaping: false, ended: false }
        } else if s.last() == '\\' {
            AppleScriptReading { escaping: true, ..before }
        } else if s.last() == '"' {
            AppleScriptReading { ended: true, ..before }
        } else {
            AppleScriptReading { text: before.text.push(s.last()), escaping: false, ended: false }
        }
    }
}

/// Where a shell is in reading a word.
pub enum ShellPlace {
    /// Outside of quotes.
    Bare,
    /// Outside of quotes, after a backslash.
    Escaping,
    /// Inside single quotes.
    Quoted,
    /// A character stood bare that could end the word or mean something to the
    /// shell; nothing more is read.
    Over,
}

/// How a shell reads a word, none of whose characters may stand bare: its text
/// so far, and where the shell is. Inside single quotes every character stands
/// for itself; outside, a backslash lets the next character stand for itself,
/// unless that is the end of the line.
pub open spec fn shell_reading(s: Seq<char>) -> (Seq<char>, ShellPlace)
    decreases s.len(),
{
    if s.len() == 0 {
        (Seq::empty(), ShellPlace::Bare)
    } else {
        let (text, place) = shell_reading(s.drop_last());
        let c = s.last();
        match place {
            ShellPlace::Quoted => if c == '\'' {
                (text, ShellPlace::Bare)
            } else {
                (text.push(c), ShellPlace::Quoted)
            },
            ShellPlace::Escaping => if c == '\n' {
                (text, ShellPlace::Over)
            } else {
                (text.push(c), ShellPlace::Bare)
            },
            ShellPlace::Bare => if c == '\'' {
                (text, ShellPlace::Quoted)
            } else if c == '\\' {
                (text, ShellPlace::Escaping)
            } else {
                (text, ShellPlace::Over)
            },
            ShellPlace::Over => (text, ShellPlace::Over),
        }
    }
}

proof fn lemma_replaced_push(s: Seq<char>, c: char, from: char, to: Seq<char>)
    ensures
        replaced(s.push(c), from, to) == replaced(s, from, to) + (if c == from {
            to
        } else {
            seq![c]
        }),
{
    assert(s.push(c).drop_last() =~= s);
}

/// An escaped text, read as the inside of an AppleScript string, is the text:
/// the string is not ended early, and no backslash is left over.
pub proof fn law_escaped_text_reads_back(value: Seq<char>)
    ensures
        applescript_reading(osascript_escaped(value)) == (AppleScriptReading {
            text: value,
            escaping: false,
            ended: false,
        }),
    decreases value.len(),
{
    reveal_strlit("\\\\");
    reveal_strlit("\\\"");
    reveal_with_fuel(applescript_reading, 3);
    if value.len() == 0 {
        assert(value =~= Seq::empty());
    } else {
        let rest = value.drop_last();
        let c = value.last();
        law_escaped_text_reads_back(rest);
        assert(value =~= rest.push(c));
        let inner = replaced(rest, '\\', "\\\\"@);
        let before = osascript_escaped(rest);
        lemma_replaced_push(rest, c, '\\', "\\\\"@);
        if c == '\\' {
            assert(inner + "\\\\"@ =~= inner.push('\\').push('\\'));
            lemma_replaced_push(inner, '\\', '"', "\\\""@);
            lemma_replaced_push(inner.push('\\'), '\\', '"', "\\\""@);
            assert(before + seq!['\\'] =~= before.push('\\'));
            assert(before.push('\\') + seq!['\\'] =~= before.push('\\').push('\\'));
            lemma_two(before, '\\', '\\');
        } else {
            assert(inner + seq![c] =~= inner.push(c));
            lemma_replaced_push(inner, c, '"', "\\\""@);
            if c == '"' {
                assert(before + "\\\""@ =~= before.push('\\').push('"'));
                lemma_two(before, '\\', '"');
            } else {
                assert(before + seq![c] =~= before.push(c));
                assert(before.push(c).drop_last() =~= before);
            }
        }
        assert(rest.push(c) =~= value);
    }
}

proof fn lemma_two(s: Seq<char>, a: char, b: char)
    ensures
        s.push(a).push(b).drop_last() == s.push(a),
        s.push(a).drop_last() == s,
{
    assert(s.push(a).push(b).drop_last() =~= s.push(a));
    assert(s.push(a).drop_last() =~= s);
}

proof fn lemma_quoted_inside(value: Seq<char>)
    ensures
        shell_reading("'"@ + replaced(value, '\'', "'\\''"@)) == (value, ShellPlace::Quoted),
    decreases value.len(),
{
    reveal_strlit("'");
    reveal_strlit("'\\''");
    reveal_with_fuel(shell_reading, 5);
    if value.len() == 0 {
        assert("'"@ + replaced(value, '\'', "'\\''"@) =~= "'"@);
        assert("'"@.drop_last() =~= Seq::empty());
        assert(value =~= Seq::empty());
    } else {
        let rest = value.drop_last();
        let c = value.last();
        lemma_quoted_inside(rest);
        assert(value =~= rest.push(c));
        lemma_replaced_push(rest, c, '\'', "'\\''"@);
        let before = "'"@ + replaced(rest, '\'', "'\\''"@);
        let after = "'"@ + replaced(value, '\'', "'\\''"@);
        if c == '\'' {
            assert(after =~= before.push('\'').push('\\').push('\'').push('\''));
            lemma_two(before, '\'', '\\');
            lemma_two(before.push('\''), '\\', '\'');
            lemma_two(before.push('\'').push('\\'), '\'', '\'');
        } else {
            assert(after =~= before.push(c));
            assert(before.push(c).drop_last() =~= before);
        }
    }
}

/// A quoted text, read by a shell, is one word, which is the text: the quotes
/// are closed at its end, and no character of it stands bare.
pub proof fn law_quoted_text_reads_back(value: Seq<char>)
    ensures
        shell_reading(single_quoted(value)) == (value, ShellPlace::Bare),
{
    lemma_quoted_inside(value);
    reveal_strlit("'");
    let before = "'"@ + replaced(value, '\'', "'\\''"@);
    assert(single_quoted(value) =~= before.push('\''));
    assert(before.push('\'').drop_last() =~= before);
}

} // verus!
