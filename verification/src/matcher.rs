//! The rule matcher: a filter is a set of optional fields, and an event
//! matches it unless a field that is set meets an attribute that is known
//! and differs. An absent field, or an unknown attribute, matches anything.

use crate::text::{option_text, same_text};
use vstd::prelude::*;

verus! {

/// Whether a filter's field matches an event's attribute: they are equal,
/// or one of them is absent.
pub open spec fn matches_if_known<T>(expected: Option<T>, actual: Option<T>) -> bool {
    match (expected, actual) {
        (Some(wanted), Some(found)) => wanted == found,
        _ => true,
    }
}

/// Whether a filter's text field matches an event's attribute.
pub fn text_matches(expected: &Option<String>, actual: &Option<String>) -> (matched: bool)
    ensures
        matched == matches_if_known(option_text(*expected), option_text(*actual)),
{
    match (expected, actual) {
        (Some(wanted), Some(found)) => same_text(wanted.as_str(), found.as_str()),
        _ => true,
    }
}

/// Whether a filter's text field matches an attribute that is known.
pub fn text_matches_known(expected: &Option<String>, actual: &str) -> (matched: bool)
    ensures
        matched == matches_if_known(option_text(*expected), Some(actual@)),
{
    match expected {
        Some(wanted) => same_text(wanted.as_str(), actual),
        None => true,
    }
}

/// Whether a filter's number field matches an event's attribute.
pub fn number_matches(expected: Option<i32>, actual: Option<i32>) -> (matched: bool)
    ensures
        matched == matches_if_known(expected, actual),
{
    match (expected, actual) {
        (Some(wanted), Some(found)) => wanted == found,
        _ => true,
    }
}

/// Whether a filter's flag matches an event's attribute.
pub fn flag_matches(expected: Option<bool>, actual: Option<bool>) -> (matched: bool)
    ensures
        matched == matches_if_known(expected, actual),
{
    match (expected, actual) {
        (Some(wanted), Some(found)) => wanted == found,
        _ => true,
    }
}

/// A field that is not set matches every attribute.
pub proof fn lemma_unset_field_matches<T>(actual: Option<T>)
    ensures
        matches_if_known(None::<T>, actual),
{
}

/// An attribute that is not known matches every field.
pub proof fn lemma_unknown_attribute_matches<T>(expected: Option<T>)
    ensures
        matches_if_known(expected, None::<T>),
{
}

/// A field that is set and an attribute that is known match exactly when
/// they are equal.
pub proof fn lemma_known_values_match_when_equal<T>(wanted: T, found: T)
    ensures
        matches_if_known(Some(wanted), Some(found)) <==> wanted == found,
{
}

} // verus!
