//! Answers typed at a yes/no prompt.

use vstd::prelude::*;
use crate::text::same_text;

verus! {

/// A yes/no answer as read from the user.
#[derive(Clone, Copy, Debug, PartialEq, Eq, Structural)]
pub enum UserInput {
    Yes,
    No,
    Other,
}

/// The decision taken at the opening prompt.
#[derive(Clone, Copy, Debug, PartialEq, Eq, Structural)]
pub enum Installation {
    Proceed,
    Exit,
}

/// What an already normalised answer means: `y`/`yes` agree, `n`/`no` and
/// an empty answer decline, anything else is not understood.
pub open spec fn answer_meaning(s: Seq<char>) -> UserInput {
    if s == "y"@ || s == "yes"@ {
        UserInput::Yes
    } else if s == "n"@ || s == "no"@ || s == ""@ {
        UserInput::No
    } else {
        UserInput::Other
    }
}

/// A character with the Unicode White_Space property.
pub open spec fn is_white_space(c: char) -> bool {
    let v = c as u32;
    (0x9 <= v <= 0xD) || v == 0x20 || v == 0x85 || v == 0xA0 || v == 0x1680 || (0x2000 <= v
        <= 0x200A) || v == 0x2028 || v == 0x2029 || v == 0x202F || v == 0x205F || v == 0x3000
}

/// `s` without its leading white space.
pub open spec fn trim_start(s: Seq<char>) -> Seq<char>
    decreases s.len(),
{
    if s.len() > 0 && is_white_space(s[0]) {
        trim_start(s.drop_first())
    } else {
        s
    }
}

/// `s` without its trailing white space.
pub open spec fn trim_end(s: Seq<char>) -> Seq<char>
    decreases s.len(),
{
    if s.len() > 0 && is_white_space(s.last()) {
        trim_end(s.drop_last())
    } else {
        s
    }
}

/// `s` without leading and trailing white space.
pub open spec fn trimmed(s: Seq<char>) -> Seq<char> {
    trim_end(trim_start(s))
}

/// What `str::to_lowercase` makes of a string.
pub uninterp spec fn lowered_of(s: Seq<char>) -> Seq<char>;

/// Whether `c` is white space.
pub fn is_white_space_char(c: char) -> (r: bool)
    ensures
        r == is_white_space(c),
{
    let v = c as u32;
    (0x9 <= v && v <= 0xD) || v == 0x20 || v == 0x85 || v == 0xA0 || v == 0x1680 || (0x2000 <= v
        && v <= 0x200A) || v == 0x2028 || v == 0x2029 || v == 0x202F || v == 0x205F || v == 0x3000
}

/// `s` without leading and trailing white space.
pub fn trim_text(s: &str) -> (r: &str)
    ensures
        r@ == trimmed(s@),
{
    let n = s.unicode_len();
    let mut start: usize = 0;
    assert(s@.subrange(0, n as int) =~= s@);
    while start < n && is_white_space_char(s.get_char(start))
        invariant
            n == s@.len(),
            start <= n,
            trim_start(s@) == trim_start(s@.subrange(start as int, n as int)),
        decreases n - start,
    {
        assert(s@.subrange(start as int, n as int).drop_first() =~= s@.subrange(start + 1, n as int));
        start += 1;
    }
    assert(trim_start(s@) == s@.subrange(start as int, n as int));
    let mut end: usize = n;
    while end > start && is_white_space_char(s.get_char(end - 1))
        invariant
            n == s@.len(),
            start <= end <= n,
            trimmed(s@) == trim_end(s@.subrange(start as int, end as int)),
        decreases end,
    {
        assert(s@.subrange(start as int, end as int).drop_last() =~= s@.subrange(
            start as int,
            end - 1,
        ));
        end -= 1;
    }
    assert(trimmed(s@) == s@.subrange(start as int, end as int));
    s.substring_char(start, end)
}

/// Relies on `str::to_lowercase`: the result depends on the characters alone.
#[verifier::external_body]
fn lowercase_text(s: &str) -> (r: String)
    ensures
        r@ == lowered_of(s@),
{
    s.to_lowercase()
}

/// A raw line typed at a prompt, without surrounding whitespace and in lower case.
pub fn normalize_answer(raw: &str) -> (r: String)
    ensures
        r@ == lowered_of(trimmed(raw@)),
{
    lowercase_text(trim_text(raw))
}

/// Classifies a normalised answer.
pub fn parse_input(input: &str) -> (r: UserInput)
    ensures
        r == answer_meaning(input@),
{
    if same_text(input, "y") || same_text(input, "yes") {
        UserInput::Yes
    } else if same_text(input, "n") || same_text(input, "no") || same_text(input, "") {
        UserInput::No
    } else {
        UserInput::Other
    }
}

/// One round of the opening prompt: `Some` decision once the answer is
/// understood, `None` when the question has to be asked again.
pub fn installation_prompt(input: &str) -> (r: Option<Installation>)
    ensures
        answer_meaning(input@) == UserInput::Yes <==> r == Some(Installation::Proceed),
        answer_meaning(input@) == UserInput::No <==> r == Some(Installation::Exit),
        answer_meaning(input@) == UserInput::Other <==> r is None,
{
    match parse_input(input) {
        UserInput::Yes => Some(Installation::Proceed),
        UserInput::No => Some(Installation::Exit),
        UserInput::Other => None,
    }
}

} // verus!
