//! Several days in a row, and what holds of an item however many pass.

use vstd::prelude::*;
use crate::category::Category;
use crate::item::ItemView;
use crate::rules::{next_day, QUALITY_CAP, QUALITY_FLOOR};

verus! {

/// An item after `days` days, one day at a time.
pub open spec fn after_days(item: ItemView, days: nat) -> ItemView
    decreases days,
{
    if days == 0 {
        item
    } else {
        next_day(after_days(item, (days - 1) as nat))
    }
}

/// Days never rename an item, so its category is fixed for good.
pub proof fn name_is_kept(item: ItemView, days: nat)
    ensures
        after_days(item, days).name == item.name,
        after_days(item, days).category() == item.category(),
    decreases days,
{
    if days > 0 {
        name_is_kept(item, (days - 1) as nat);
    }
}

/// Waiting `first` days and `more` days after them is waiting
/// `first + more` days.
pub proof fn days_add_up(item: ItemView, first: nat, more: nat)
    ensures
        after_days(after_days(item, first), more) == after_days(item, first + more),
    decreases more,
{
    if more > 0 {
        days_add_up(item, first, (more - 1) as nat);
    }
}

/// The days left never grow, and an item that has expired stays expired.
pub proof fn days_left_never_grow(item: ItemView, days: nat)
    ensures
        after_days(item, days).sell_in <= item.sell_in,
    decreases days,
{
    if days > 0 {
        days_left_never_grow(item, (days - 1) as nat);
    }
}

/// A quality that starts at or above the floor is never below it afterwards,
/// whatever the category.
pub proof fn quality_never_negative(item: ItemView, days: nat)
    requires
        item.quality >= QUALITY_FLOOR,
    ensures
        after_days(item, days).quality >= QUALITY_FLOOR,
    decreases days,
{
    if days > 0 {
        quality_never_negative(item, (days - 1) as nat);
    }
}

/// A quality that starts at or below the cap is never above it afterwards,
/// whatever the category.
pub proof fn quality_never_above_cap(item: ItemView, days: nat)
    requires
        item.quality <= QUALITY_CAP,
    ensures
        after_days(item, days).quality <= QUALITY_CAP,
    decreases days,
{
    if days > 0 {
        quality_never_above_cap(item, (days - 1) as nat);
    }
}

/// A legendary item is the same after any number of days.
pub proof fn legendary_never_changes(item: ItemView, days: nat)
    requires
        item.category() is Legendary,
    ensures
        after_days(item, days) == item,
    decreases days,
{
    if days > 0 {
        legendary_never_changes(item, (days - 1) as nat);
    }
}

/// While the event is still ahead, each day takes exactly one from a
/// ticket's days left, its quality does not fall, and a quality that started
/// at or above the floor is above it after the first day.
pub proof fn ticket_before_event(item: ItemView, days: nat)
    requires
        item.category() is EventTicket,
        days <= item.sell_in,
    ensures
        after_days(item, days).sell_in == item.sell_in - days,
        after_days(item, days).quality >= item.quality,
        item.quality >= QUALITY_FLOOR && days >= 1 ==> after_days(item, days).quality
            > QUALITY_FLOOR,
    decreases days,
{
    if days > 0 {
        ticket_before_event(item, (days - 1) as nat);
        name_is_kept(item, (days - 1) as nat);
    }
}

/// A ticket whose event is over is worth nothing after one more day, and
/// after every day that follows.
pub proof fn ticket_stays_worthless(item: ItemView, days: nat)
    requires
        item.category() is EventTicket,
        item.sell_in <= 0,
        days >= 1,
    ensures
        after_days(item, days).quality == 0,
    decreases days,
{
    let before = after_days(item, (days - 1) as nat);
    name_is_kept(item, (days - 1) as nat);
    days_left_never_grow(item, (days - 1) as nat);
    assert(after_days(item, days) == next_day(before));
}

/// A ticket is worth nothing once at least a day has passed, and more days
/// than it had left. The day that starts with no days left is the first to
/// end at nothing; every later day ends at nothing too.
pub proof fn ticket_worthless_after_event(item: ItemView, days: nat)
    requires
        item.category() is EventTicket,
        days >= 1,
        days > item.sell_in,
    ensures
        after_days(item, days).quality == 0,
{
    if item.sell_in <= 0 {
        ticket_stays_worthless(item, days);
    } else {
        let ahead = item.sell_in as nat;
        let at_event = after_days(item, ahead);
        ticket_before_event(item, ahead);
        name_is_kept(item, ahead);
        days_add_up(item, ahead, (days - ahead) as nat);
        ticket_stays_worthless(at_event, (days - ahead) as nat);
    }
}

/// An item that improves with age never loses quality from one day to the
/// next: below the cap it gains, without passing the cap; at or above the cap
/// it keeps what it has. This holds before and after its sell-by date.
pub proof fn aged_quality_rises(item: ItemView, days: nat)
    requires
        item.category() is AgingImproves,
    ensures
        ({
            let today = after_days(item, days).quality;
            let tomorrow = after_days(item, days + 1).quality;
            if today < QUALITY_CAP {
                today < tomorrow <= QUALITY_CAP
            } else {
                tomorrow == today
            }
        }),
{
    name_is_kept(item, days);
    assert(after_days(item, days + 1) == next_day(after_days(item, days)));
}

} // verus!
