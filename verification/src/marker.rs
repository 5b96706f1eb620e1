//! Classifying a line of the log by the marker it ends with.

use crate::text::chars_of;
use crate::text::ends_with;
use vstd::prelude::*;
use vstd::string::*;

verus! {

/// The two kinds of event that a line of the log can report.
#[derive(Clone, Copy, Debug, PartialEq, Eq, Structural)]
pub enum EventKind {
    /// The configured player was shocked.
    Minor,
    /// The local player died.
    Major,
}

/// What comes before the player's name in the marker of a minor event.
pub open spec fn minor_marker_lead() -> Seq<char> {
    "Shocked: "@
}

/// The marker of a major event.
pub open spec fn major_marker() -> Seq<char> {
    "Local Death"@
}

/// The marker of a minor event for the player called `username`.
pub open spec fn minor_marker(username: Seq<char>) -> Seq<char> {
    minor_marker_lead() + username
}

/// The event that `line` reports, if any, where `expected` is the marker of
/// a minor event. A line reports an event only by ending with its marker,
/// letter for letter; the marker of a minor event is looked for first.
pub open spec fn classification(line: Seq<char>, expected: Seq<char>) -> Option<EventKind> {
    if expected.is_suffix_of(line) {
        Some(EventKind::Minor)
    } else if major_marker().is_suffix_of(line) {
        Some(EventKind::Major)
    } else {
        None
    }
}

/// Builds the marker of a minor event from the configured player name.
pub fn expected_marker(username: &str) -> (r: String)
    ensures
        r@ == minor_marker(username@),
{
    String::from_str("Shocked: ").concat(username)
}

/// Classifies one line of the log against the marker `expected` of a minor
/// event and the fixed marker of a major event.
pub fn classify(line: &str, expected: &str) -> (r: Option<EventKind>)
    ensures
        r == classification(line@, expected@),
{
    let text = chars_of(line);
    let minor = chars_of(expected);
    if ends_with(&text, &minor) {
        return Some(EventKind::Minor);
    }
    let major = chars_of("Local Death");
    if ends_with(&text, &major) {
        Some(EventKind::Major)
    } else {
        None
    }
}

} // verus!
