//! Small decisions around a notification: how urgent it is, and whether a
//! command is worth running.

use crate::text::{chars_of, same_text};
use vstd::prelude::*;

verus! {

/// How urgent a notification is.
#[derive(Clone, Copy, Debug, PartialEq, Eq, Structural)]
pub enum Urgency {
    Low,
    Normal,
    Critical,
}

/// The lower-case form of a text, as `str::to_lowercase` gives it.
pub uninterp spec fn lowercase_of(s: Seq<char>) -> Seq<char>;

/// Taken on trust: `str::to_lowercase` of the standard library returns the
/// lower-case form of `s`, which depends on the characters of `s` alone.
/// The contract gives that form a name and claims nothing else of it.
pub assume_specification[ str::to_lowercase ](s: &str) -> (lower: String)
    ensures
        lower@ == lowercase_of(s@),
;

/// The urgency that a lower-case name stands for: `low`, `normal` or
/// `critical`; any other text stands for normal urgency.
pub open spec fn urgency_named(lower: Seq<char>) -> Urgency {
    if lower == "low"@ {
        Urgency::Low
    } else if lower == "critical"@ {
        Urgency::Critical
    } else {
        Urgency::Normal
    }
}

/// The urgency that the lower-case name `lower` stands for.
pub fn urgency_from_lowercase(lower: &str) -> (urgency: Urgency)
    ensures
        urgency == urgency_named(lower@),
{
    if same_text(lower, "low") {
        Urgency::Low
    } else if same_text(lower, "critical") {
        Urgency::Critical
    } else {
        Urgency::Normal
    }
}

/// The urgency that `s` names, whatever the case of its letters.
pub fn parse_urgency(s: &str) -> (urgency: Urgency)
    ensures
        urgency == urgency_named(lowercase_of(s@)),
{
    let lower = s.to_lowercase();
    urgency_from_lowercase(lower.as_str())
}

/// Whether `c` is white space, as `char::is_whitespace` tells it.
pub uninterp spec fn is_white_space(c: char) -> bool;

/// Taken on trust: `char::is_whitespace` of the standard library tells
/// whether `c` has the Unicode property White_Space, which depends on `c`
/// alone. The contract gives the answer a name and claims nothing else of
/// it.
pub assume_specification[ char::is_whitespace ](c: char) -> (white: bool)
    ensures
        white == is_white_space(c),
;

/// Whether a text holds nothing but white space.
pub open spec fn blank(s: Seq<char>) -> bool {
    forall|k: int| 0 <= k < s.len() ==> is_white_space(#[trigger] s[k])
}

/// Whether a command holds nothing but white space. Such a command is not
/// worth running.
pub fn is_blank(command: &str) -> (r: bool)
    ensures
        r == blank(command@),
{
    let chars = chars_of(command);
    let mut i: usize = 0;
    while i < chars.len()
        invariant
            i <= chars.len(),
            chars@ == command@,
            forall|k: int| 0 <= k < i ==> is_white_space(#[trigger] chars@[k]),
        decreases chars.len() - i,
    {
        if !chars[i].is_whitespace() {
            return false;
        }
        i += 1;
    }
    true
}

/// The text that `humansize::format_size` gives for a number of bytes with
/// the options `humansize::DECIMAL`: the number scaled by powers of 1000,
/// with at most two decimals, a space and the unit.
pub uninterp spec fn size_text(bytes: u64) -> Seq<char>;

/// Taken on trust: `humansize::format_size` with the options
/// `humansize::DECIMAL` returns for every number of bytes, and its result
/// depends on that number alone. The contract gives the result a name and
/// claims nothing else of it.
#[verifier::external_body]
pub(crate) fn format_size_decimal(bytes: u64) -> (text: String)
    ensures
        text@ == size_text(bytes),
{
    humansize::format_size(bytes, humansize::DECIMAL)
}

} // verus!
