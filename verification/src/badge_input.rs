//! Comma- and Enter-delimited custom value entry for metadata badges.
use vstd::prelude::*;

use crate::input_submit::InputEvent;
use crate::text::{chars_of, pieces, pieces_nonempty, split, trim, trimmed, trimmed_texts, values_of,
    views, Class};

verus! {

/// The segments of a text between commas and line feeds.
pub open spec fn segments(text: Seq<char>) -> Seq<Seq<char>> {
    pieces(text, Class::Delimiter)
}

/// Whether a text ends in a comma or a line feed.
pub open spec fn ends_delimited(text: Seq<char>) -> bool {
    text.len() > 0 && Class::Delimiter.has(text.last())
}

/// The values a text commits, and what stays in the input.
pub open spec fn split_of(text: Seq<char>, commit_trailing: bool) -> (Seq<Seq<char>>, Seq<char>) {
    let parts = segments(text);
    if commit_trailing || ends_delimited(text) {
        (values_of(parts), Seq::empty())
    } else {
        (values_of(parts.drop_last()), trimmed(parts.last()))
    }
}

/// Return all non-empty values in comma- or newline-separated text.
pub fn badge_values(text: &str) -> (r: Vec<String>)
    ensures
        views(r@) == values_of(segments(text@)),
{
    trimmed_texts(&split(text, Class::Delimiter))
}

/// The values a text commits, and what stays in the input. The unfinished
/// last segment stays, unless it is committed too or there is none.
pub fn split_badge_input(text: &str, commit_trailing: bool) -> (r: (Vec<String>, String))
    ensures
        (views(r.0@), r.1@) == split_of(text@, commit_trailing),
{
    let chars = chars_of(text);
    let mut parts = split(text, Class::Delimiter);
    let delimited = chars.len() > 0 && Class::Delimiter.holds(chars[chars.len() - 1]);
    if commit_trailing || delimited {
        (badge_values(text), String::new())
    } else {
        let last: usize = parts.len() - 1;
        assert(views(parts@).last() == parts@[last as int]@);
        let remainder = trim(parts[last].as_str());
        let ghost all = views(parts@);
        let _ = parts.pop();
        assert(views(parts@) == all.drop_last());
        (trimmed_texts(&parts), remainder)
    }
}

/// Whether a text has a comma or a line feed.
pub open spec fn has_delimiter(text: Seq<char>) -> bool {
    exists|i: int| 0 <= i < text.len() && Class::Delimiter.has(#[trigger] text[i])
}

fn delimiter_in(text: &str) -> (r: bool)
    ensures
        r == has_delimiter(text@),
{
    let chars = chars_of(text);
    let mut i: usize = 0;
    while i < chars.len()
        invariant
            i <= chars.len(),
            chars@ == text@,
            forall|j: int| 0 <= j < i ==> !Class::Delimiter.has(#[trigger] text@[j]),
        decreases chars.len() - i,
    {
        if Class::Delimiter.holds(chars[i]) {
            return true;
        }
        i = i + 1;
    }
    false
}

/// What an input event makes of a badge input: the values to commit, and the
/// text to leave in the input.
#[derive(Debug, PartialEq, Eq)]
pub struct BadgeEdit {
    pub values: Vec<String>,
    pub remainder: String,
}

/// Enter commits the whole input; a change commits the complete segments once
/// there is a delimiter. Any other event leaves the input alone.
pub open spec fn edits(event: InputEvent, text: Seq<char>) -> bool {
    event is PressEnter || (event is Change && has_delimiter(text))
}

/// What an input event makes of a badge input.
pub fn use_badge_input(event: InputEvent, text: &str) -> (r: Option<BadgeEdit>)
    ensures
        r is Some == edits(event, text@),
        r matches Some(edit) ==> (views(edit.values@), edit.remainder@) == split_of(
            text@,
            event is PressEnter,
        ),
{
    let commit_trailing = match event {
        InputEvent::PressEnter => true,
        InputEvent::Change => false,
        _ => {
            return None;
        },
    };
    if !commit_trailing && !delimiter_in(text) {
        return None;
    }
    let (values, remainder) = split_badge_input(text, commit_trailing);
    Some(BadgeEdit { values, remainder })
}

/// Nothing typed is lost: the values committed, followed by what stays in the
/// input, are all the values of the text.
pub proof fn committing_loses_nothing(text: Seq<char>, commit_trailing: bool)
    ensures
        ({
            let (values, remainder) = split_of(text, commit_trailing);
            values_of(segments(text)) == (if remainder.len() == 0 {
                values
            } else {
                values.push(remainder)
            })
        }),
{
    pieces_nonempty(text, Class::Delimiter);
}

/// Every committed value is trimmed and holds more than white space.
pub proof fn values_are_never_blank(parts: Seq<Seq<char>>, i: int)
    requires
        0 <= i < values_of(parts).len(),
    ensures
        values_of(parts)[i].len() > 0,
        exists|k: int|
            0 <= k < parts.len() && values_of(parts)[i] == trimmed(#[trigger] parts[k]),
    decreases parts.len(),
{
    let shorter = parts.drop_last();
    if i < values_of(shorter).len() {
        values_are_never_blank(shorter, i);
        let k = choose|k: int|
            0 <= k < shorter.len() && values_of(shorter)[i] == trimmed(#[trigger] shorter[k]);
        assert(parts[k] == shorter[k]);
    } else {
        assert(parts[parts.len() - 1] == parts.last());
    }
}

} // verus!
