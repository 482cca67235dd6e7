//! The ageing rules: what one day does to one item.
//!
//! A day has two steps. First the quality moves as the item's category says;
//! then the days left drop by one. Whether an item counts as expired on a
//! given day is judged on the days left before that day's decrement, for
//! every category alike, event tickets included: see [`is_expired`].

use vstd::prelude::*;
use crate::category::Category;
use crate::item::{Item, ItemView};

verus! {

/// No rule lets quality fall below this.
pub const QUALITY_FLOOR: i32 = 0;

/// No rule lets quality rise above this.
pub const QUALITY_CAP: i32 = 50;

/// Daily loss of an ordinary item before its sell-by date.
pub const ORDINARY_RATE: i32 = 1;

/// Daily loss of a fast-degrading item before its sell-by date.
pub const DEGRADING_RATE: i32 = 2;

/// The one place that decides when an item is past its date.
///
/// `sell_in` is the number of days left at the start of the day, before the
/// day's decrement. A ticket with one day left therefore still gains on that
/// day and is worthless from the next day on.
pub open spec fn is_expired(sell_in: int) -> bool {
    sell_in <= 0
}

/// Quality of a degrading item after one day at the given daily `rate`: the
/// loss is doubled once expired, never takes quality below the floor, and
/// leaves a quality at or below the floor alone. A rate below zero is no
/// loss at all: quality stays as it is.
pub open spec fn degraded(rate: int, sell_in: int, quality: int) -> int {
    let loss = if is_expired(sell_in) { 2 * rate } else { rate };
    if rate < 0 || quality <= QUALITY_FLOOR {
        quality
    } else if quality - loss < QUALITY_FLOOR {
        QUALITY_FLOOR as int
    } else {
        quality - loss
    }
}

/// Quality after one day that adds `gain`: never takes quality above the cap,
/// and leaves a quality at or above the cap alone.
pub open spec fn raised(gain: int, quality: int) -> int {
    if quality >= QUALITY_CAP {
        quality
    } else if quality + gain > QUALITY_CAP {
        QUALITY_CAP as int
    } else {
        quality + gain
    }
}

/// Quality of an item that improves with age after one day: one more, or two
/// more once expired.
pub open spec fn matured(sell_in: int, quality: int) -> int {
    raised(if is_expired(sell_in) { 2 } else { 1 }, quality)
}

/// What a ticket gains on a day that starts with `sell_in` days left, while
/// the event is still ahead.
pub open spec fn ticket_gain(sell_in: int) -> int {
    if sell_in < 6 {
        3
    } else if sell_in < 11 {
        2
    } else {
        1
    }
}

/// Quality of an event ticket after one day: nothing once the event is over;
/// else the gain for the days left is added whole where that stays within
/// the cap, and skipped where it would pass the cap. A skipped gain is not
/// cut down to fit: the ticket keeps that day what it had.
pub open spec fn ticket_value(sell_in: int, quality: int) -> int {
    if is_expired(sell_in) {
        0
    } else if quality + ticket_gain(sell_in) <= QUALITY_CAP {
        quality + ticket_gain(sell_in)
    } else {
        quality
    }
}

/// Quality after one day, by category.
pub open spec fn next_quality(category: Category, sell_in: int, quality: int) -> int {
    match category {
        Category::Legendary => quality,
        Category::AgingImproves => matured(sell_in, quality),
        Category::EventTicket => ticket_value(sell_in, quality),
        Category::DegradingFast => degraded(DEGRADING_RATE as int, sell_in, quality),
        Category::Ordinary => degraded(ORDINARY_RATE as int, sell_in, quality),
    }
}

/// Days left after one day: one fewer, except for a legendary item. The count
/// has no floor of its own; it only stops at the smallest number that an
/// `i32` can hold.
pub open spec fn next_sell_in(category: Category, sell_in: int) -> int {
    if category is Legendary || sell_in <= i32::MIN {
        sell_in
    } else {
        sell_in - 1
    }
}

/// An item after one day.
pub open spec fn next_day(item: ItemView) -> ItemView {
    ItemView {
        name: item.name,
        sell_in: next_sell_in(item.category(), item.sell_in),
        quality: next_quality(item.category(), item.sell_in, item.quality),
    }
}

/// Whether an item with `sell_in` days left at the start of the day is past
/// its date.
pub fn has_expired(sell_in: i32) -> (expired: bool)
    ensures
        expired == is_expired(sell_in as int),
{
    sell_in <= 0
}

/// Adds `gain` to the quality of `item`, as far as the cap allows.
pub fn raise_quality(item: &mut Item, gain: i32)
    requires
        gain >= 0,
    ensures
        final(item)@ == (ItemView {
            quality: raised(gain as int, old(item)@.quality),
            ..old(item)@
        }),
{
    if item.quality < QUALITY_CAP {
        if item.quality > QUALITY_CAP - gain {
            item.quality = QUALITY_CAP;
        } else {
            item.quality = item.quality + gain;
        }
    }
}

/// Quality step of an item that loses `update` a day. Only quality can
/// change, whatever `update` is.
pub fn update_others(item: &mut Item, update: i32)
    ensures
        final(item)@ == (ItemView {
            quality: degraded(update as int, old(item)@.sell_in, old(item)@.quality),
            ..old(item)@
        }),
{
    let quality: i32 = item.quality;
    if update >= 0 && quality > QUALITY_FLOOR {
        let once: i32 = if quality > update {
            quality - update
        } else {
            QUALITY_FLOOR
        };
        if !has_expired(item.sell_in) {
            item.quality = once;
        } else if once > update {
            item.quality = once - update;
        } else {
            item.quality = QUALITY_FLOOR;
        }
    }
}

/// Quality step of an item that improves with age.
pub fn update_aged_brie(item: &mut Item)
    ensures
        final(item)@ == (ItemView {
            quality: matured(old(item)@.sell_in, old(item)@.quality),
            ..old(item)@
        }),
{
    if has_expired(item.sell_in) {
        raise_quality(item, 2);
    } else {
        raise_quality(item, 1);
    }
}

/// Quality step of an event ticket.
pub fn update_backstage_passes(item: &mut Item)
    ensures
        final(item)@ == (ItemView {
            quality: ticket_value(old(item)@.sell_in, old(item)@.quality),
            ..old(item)@
        }),
{
    if has_expired(item.sell_in) {
        item.quality = 0;
    } else {
        let gain: i32 = if item.sell_in < 6 {
            3
        } else if item.sell_in < 11 {
            2
        } else {
            1
        };
        if item.quality <= QUALITY_CAP - gain {
            item.quality = item.quality + gain;
        }
    }
}

/// Moves one item on by one day: the quality step of its category, then one
/// day fewer to sell it.
pub fn advance(item: &mut Item)
    ensures
        final(item)@ == next_day(old(item)@),
{
    let category = item.category();
    match category {
        Category::Legendary => {},
        Category::AgingImproves => update_aged_brie(item),
        Category::EventTicket => update_backstage_passes(item),
        Category::DegradingFast => update_others(item, DEGRADING_RATE),
        Category::Ordinary => update_others(item, ORDINARY_RATE),
    }
    match category {
        Category::Legendary => {},
        _ => {
            if item.sell_in > i32::MIN {
                item.sell_in = item.sell_in - 1;
            }
        },
    }
}

} // verus!
