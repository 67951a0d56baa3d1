//! What holds of texts as a whole.

use crate::text::{
    decimal, digit, given_text, is_white_space, joined, replaced, signed_decimal, trim_end,
    trim_start, trimmed,
};
use vstd::prelude::*;
use vstd::string::*;

verus! {

proof fn lemma_trim_start(s: Seq<char>)
    ensures
        trim_start(s).len() <= s.len(),
        trim_start(s) == s.skip(s.len() - trim_start(s).len()),
        forall|i: int| 0 <= i < s.len() - trim_start(s).len() ==> is_white_space(#[trigger] s[i]),
        trim_start(s).len() > 0 ==> !is_white_space(trim_start(s)[0]),
    decreases s.len(),
{
    if s.len() > 0 && is_white_space(s[0]) {
        let rest = s.drop_first();
        lemma_trim_start(rest);
        assert(trim_start(s) == trim_start(rest));
        assert(rest.skip(rest.len() - trim_start(rest).len()) =~= s.skip(
            s.len() - trim_start(s).len(),
        ));
        assert forall|i: int| 0 <= i < s.len() - trim_start(s).len() implies is_white_space(
            #[trigger] s[i],
        ) by {
            if i > 0 {
                assert(rest[i - 1] == s[i]);
            }
        }
    } else {
        assert(s.skip(0) =~= s);
    }
}

proof fn lemma_trim_end(s: Seq<char>)
    ensures
        trim_end(s).len() <= s.len(),
        trim_end(s) == s.take(trim_end(s).len() as int),
        forall|i: int| trim_end(s).len() <= i < s.len() ==> is_white_space(#[trigger] s[i]),
        trim_end(s).len() > 0 ==> !is_white_space(trim_end(s).last()),
    decreases s.len(),
{
    if s.len() > 0 && is_white_space(s.last()) {
        let rest = s.drop_last();
        lemma_trim_end(rest);
        assert(rest.take(trim_end(rest).len() as int) =~= s.take(trim_end(s).len() as int));
        assert forall|i: int| trim_end(s).len() <= i < s.len() implies is_white_space(
            #[trigger] s[i],
        ) by {
            if i < s.len() - 1 {
                assert(rest[i] == s[i]);
            }
        }
    } else {
        assert(s.take(s.len() as int) =~= s);
    }
}

/// A trimmed text is what stands between the white space around it: it begins
/// and ends with something else, and all that was taken away is white space.
pub proof fn law_trimmed_text_stands_between_white_space(s: Seq<char>)
    ensures
        ({
            let t = trimmed(s);
            let start = s.len() - trim_start(s).len();
            &&& 0 <= start && start + t.len() <= s.len()
            &&& t == s.subrange(start, start + t.len())
            &&& forall|i: int| 0 <= i < start ==> is_white_space(#[trigger] s[i])
            &&& forall|i: int| start + t.len() <= i < s.len() ==> is_white_space(#[trigger] s[i])
            &&& t.len() > 0 ==> !is_white_space(t[0]) && !is_white_space(t.last())
        }),
{
    let u = trim_start(s);
    let t = trimmed(s);
    let start = s.len() - u.len();
    lemma_trim_start(s);
    lemma_trim_end(u);
    assert(t =~= s.subrange(start, start + t.len()));
    assert forall|i: int| start + t.len() <= i < s.len() implies is_white_space(
        #[trigger] s[i],
    ) by {
        assert(u[i - start] == s[i]);
    }
    if t.len() > 0 {
        assert(t[0] == u[0]);
    }
}

/// Blanks, tabs and line ends are white space; letters, digits and signs are
/// not.
pub proof fn law_white_space_is_what_is_blank(c: char)
    ensures
        is_white_space(' ') && is_white_space('\t') && is_white_space('\n') && is_white_space('\r'),
        '!' <= c <= '~' ==> !is_white_space(c),
{
}

/// A text is given where something is left of it once it is trimmed, and that
/// is what is given.
pub proof fn law_blank_text_is_not_given(s: Seq<char>)
    ensures
        given_text(None) is None,
        given_text(Some(s)) is Some <==> trimmed(s).len() > 0,
        given_text(Some(s)) is Some ==> given_text(Some(s)) == Some(trimmed(s)),
{
}

/// A digit is the one character that stands for it.
pub proof fn law_digit_is_one_character(d: nat)
    requires
        d < 10,
    ensures
        digit(d).len() == 1,
        digit(d)[0] as int == '0' as int + d,
{
    reveal_strlit("0");
    reveal_strlit("1");
    reveal_strlit("2");
    reveal_strlit("3");
    reveal_strlit("4");
    reveal_strlit("5");
    reveal_strlit("6");
    reveal_strlit("7");
    reveal_strlit("8");
    reveal_strlit("9");
}

/// A number that is written is the number that is read.
pub proof fn law_written_number_reads_back(n: nat)
    ensures
        decimal(n).len() > 0,
        crate::service::scm::digits_value(decimal(n)) == Some(n),
    decreases n,
{
    if n < 10 {
        law_digit_is_one_character(n);
    } else {
        law_written_number_reads_back(n / 10);
        law_digit_is_one_character(n % 10);
        let d = decimal(n);
        assert(d.drop_last() =~= decimal(n / 10));
        assert(d.last() == digit(n % 10)[0]);
    }
}

/// A negative number is written with a minus sign before its magnitude, and any
/// other without a sign.
pub proof fn law_sign_is_written(n: int)
    ensures
        n < 0 ==> signed_decimal(n) == "-"@ + decimal((-n) as nat),
        n >= 0 ==> signed_decimal(n) == decimal(n as nat),
{
}

/// Joined texts stand one after the other, with the separator between each two
/// and nowhere else.
pub proof fn law_joined_texts_are_separated(
    parts: Seq<Seq<char>>,
    last: Seq<char>,
    separator: Seq<char>,
)
    ensures
        joined(Seq::empty(), separator).len() == 0,
        parts.len() == 0 ==> joined(parts.push(last), separator) == last,
        parts.len() > 0 ==> joined(parts.push(last), separator) == joined(parts, separator)
            + separator + last,
{
    assert(parts.push(last).drop_last() =~= parts);
}

/// Replacing goes character by character: the character that is replaced is
/// gone, where it does not come with the replacement, and all others stay.
pub proof fn law_replacing_goes_by_character(s: Seq<char>, c: char, from: char, to: Seq<char>)
    ensures
        replaced(Seq::empty(), from, to).len() == 0,
        replaced(s.push(c), from, to) == replaced(s, from, to) + (if c == from {
            to
        } else {
            seq![c]
        }),
{
    assert(s.push(c).drop_last() =~= s);
}

/// A list of texts is seen text by text, and an optional text as it is.
pub proof fn law_texts_are_seen_as_they_are(parts: Seq<String>, s: String, i: int)
    ensures
        crate::text::texts(parts).len() == parts.len(),
        0 <= i < parts.len() ==> crate::text::texts(parts)[i] == parts[i]@,
        crate::text::text_view(Some(s)) == Some(s@),
        crate::text::text_view(None) is None,
        crate::text::str_view(None) is None,
{
}

/// An optional text slice is seen as it is.
pub proof fn law_slice_is_seen_as_it_is(s: &str)
    ensures
        crate::text::str_view(Some(s)) == Some(s@),
{
}

} // verus!
