//! The five categories of item, and how a name selects one.
//!
//! An item carries no tag of its own: its name alone decides how it ages.
//! A name is tested for four marks in a fixed order, and the first mark found
//! wins; a name with none of them is ordinary. The legendary mark is tested
//! first, so that a legendary item is exempt from every rule whatever else
//! its name says.

use vstd::prelude::*;
use crate::text::{contains, has_substring};

verus! {

/// Mark of an item that never changes.
pub const LEGENDARY_MARK: &'static str = "Sulfuras";

/// Mark of an item that gains quality as it ages.
pub const AGING_MARK: &'static str = "Aged Brie";

/// Mark of a ticket for an event, worth more as the event nears and nothing
/// after it.
pub const TICKET_MARK: &'static str = "Backstage passes";

/// Mark of an item that loses quality twice as fast as an ordinary one.
pub const DEGRADING_MARK: &'static str = "Conjured";

/// How an item ages.
#[derive(Clone, Copy, Debug, PartialEq, Eq, Structural)]
pub enum Category {
    /// Neither days left nor quality ever change.
    Legendary,
    /// Quality rises by one a day, by two once expired, up to the cap.
    AgingImproves,
    /// Quality rises faster as the event nears, by whole gains that fit under
    /// the cap, and is nothing once the event is over.
    EventTicket,
    /// Quality falls by two a day, by four once expired, down to nothing.
    DegradingFast,
    /// Quality falls by one a day, by two once expired, down to nothing.
    Ordinary,
}

/// The category that a name selects.
pub open spec fn category_of(name: Seq<char>) -> Category {
    if has_substring(name, LEGENDARY_MARK@) {
        Category::Legendary
    } else if has_substring(name, AGING_MARK@) {
        Category::AgingImproves
    } else if has_substring(name, TICKET_MARK@) {
        Category::EventTicket
    } else if has_substring(name, DEGRADING_MARK@) {
        Category::DegradingFast
    } else {
        Category::Ordinary
    }
}

impl Category {
    /// Classifies a name.
    pub fn of_name(name: &str) -> (category: Category)
        ensures
            category == category_of(name@),
    {
        if contains(name, LEGENDARY_MARK) {
            Category::Legendary
        } else if contains(name, AGING_MARK) {
            Category::AgingImproves
        } else if contains(name, TICKET_MARK) {
            Category::EventTicket
        } else if contains(name, DEGRADING_MARK) {
            Category::DegradingFast
        } else {
            Category::Ordinary
        }
    }
}

} // verus!
