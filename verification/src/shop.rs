//! The shop: an ordered inventory that ages one day at a time.

use vstd::prelude::*;
use crate::days::after_days;
use crate::item::{Item, ItemView};
use crate::rules::{advance, next_day};

verus! {

/// An inventory after one day: every entry moved on by one day, each on its
/// own, in the same place.
pub open spec fn next_day_all(items: Seq<ItemView>) -> Seq<ItemView> {
    Seq::new(items.len(), |i: int| next_day(items[i]))
}

/// An inventory after `days` days, one day at a time.
pub open spec fn after_days_all(items: Seq<ItemView>, days: nat) -> Seq<ItemView>
    decreases days,
{
    if days == 0 {
        items
    } else {
        next_day_all(after_days_all(items, (days - 1) as nat))
    }
}

/// However many days pass, the inventory keeps its size.
pub proof fn inventory_keeps_its_size(items: Seq<ItemView>, days: nat)
    ensures
        after_days_all(items, days).len() == items.len(),
    decreases days,
{
    if days > 0 {
        inventory_keeps_its_size(items, (days - 1) as nat);
    }
}

/// Items age independently: after any number of days each entry is what its
/// own start alone makes it, in the place where it started.
pub proof fn each_item_ages_alone(items: Seq<ItemView>, days: nat, i: int)
    requires
        0 <= i < items.len(),
    ensures
        after_days_all(items, days)[i] == after_days(items[i], days),
    decreases days,
{
    if days > 0 {
        inventory_keeps_its_size(items, (days - 1) as nat);
        each_item_ages_alone(items, (days - 1) as nat, i);
    }
}

/// The shop and what it holds.
pub struct GildedRose {
    /// The inventory, in the order the caller gave it.
    pub items: Vec<Item>,
}

impl View for GildedRose {
    type V = Seq<ItemView>;

    open spec fn view(&self) -> Seq<ItemView> {
        Seq::new(self.items@.len(), |i: int| self.items@[i]@)
    }
}

impl GildedRose {
    /// A shop holding `items`, unchanged and in the same order.
    pub fn new(items: Vec<Item>) -> (shop: GildedRose)
        ensures
            shop.items == items,
    {
        GildedRose { items }
    }

    /// Moves the whole inventory on by one day.
    pub fn update_quality(&mut self)
        ensures
            final(self)@ == next_day_all(old(self)@),
    {
        let n: usize = self.items.len();
        let mut i: usize = 0;
        while i < n
            invariant
                i <= n,
                n == old(self).items@.len(),
                self.items@.len() == n,
                forall|j: int| 0 <= j < i ==> (#[trigger] self.items@[j])@ == next_day(old(self)@[j]),
                forall|j: int| i <= j < n ==> (#[trigger] self.items@[j]) == old(self).items@[j],
            decreases n - i,
        {
            advance(&mut self.items[i]);
            i += 1;
        }
        assert(self@ =~= next_day_all(old(self)@));
    }
}

} // verus!
