//! TLP (Traffic Light Protocol) marking definitions.

use crate::text::{contains_seq, contains_str};
use crate::trusted::{spec_to_lowercase, str_to_lowercase};
use vstd::prelude::*;

verus! {

/// TLP:WHITE / TLP:CLEAR
pub const WHITE: &'static str = "marking-definition--613f2e26-407d-48c7-9eca-b8e91df99dc9";

/// TLP:GREEN
pub const GREEN: &'static str = "marking-definition--34098fce-860f-48ae-8e50-ebd3cc5e41da";

/// TLP:AMBER
pub const AMBER: &'static str = "marking-definition--f88d31f6-486f-44da-b317-01333bde0b82";

/// TLP:RED
pub const RED: &'static str = "marking-definition--5e57c739-391a-4eb3-b6be-7d15ca92d5ed";

/// The marking for an already lower-cased tag: the first level, in the order
/// white/clear, green, amber, red, whose `tlp:` name occurs in the tag.
pub open spec fn marking_for_lowercase(tag: Seq<char>) -> Option<Seq<char>> {
    if contains_seq(tag, "tlp:white"@) || contains_seq(tag, "tlp:clear"@) {
        Some(WHITE@)
    } else if contains_seq(tag, "tlp:green"@) {
        Some(GREEN@)
    } else if contains_seq(tag, "tlp:amber"@) {
        Some(AMBER@)
    } else if contains_seq(tag, "tlp:red"@) {
        Some(RED@)
    } else {
        None
    }
}

/// Get the TLP marking definition from a tag that is already lower-cased.
pub fn from_lowercase_tag(tag_lower: &str) -> (r: Option<&'static str>)
    ensures
        r.deep_view() == marking_for_lowercase(tag_lower@),
{
    if contains_str(tag_lower, "tlp:white") || contains_str(tag_lower, "tlp:clear") {
        Some(WHITE)
    } else if contains_str(tag_lower, "tlp:green") {
        Some(GREEN)
    } else if contains_str(tag_lower, "tlp:amber") {
        Some(AMBER)
    } else if contains_str(tag_lower, "tlp:red") {
        Some(RED)
    } else {
        None
    }
}

/// Get the TLP marking definition from a tag (matched case-insensitively).
pub fn from_tag(tag: &str) -> (r: Option<&'static str>)
    ensures
        r.deep_view() == marking_for_lowercase(spec_to_lowercase(tag@)),
{
    let lower = str_to_lowercase(tag);
    from_lowercase_tag(lower.as_str())
}

} // verus!
