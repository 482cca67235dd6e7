//! An inventory entry and its mathematical view.

use vstd::prelude::*;
use vstd::string::*;
use crate::category::{category_of, Category};

verus! {

/// One entry of the inventory.
///
/// Any pair of integers is a legal state. Quality normally lies between 0 and
/// [`crate::rules::QUALITY_CAP`], but nothing enforces that when an item is
/// made.
#[derive(Debug)]
pub struct Item {
    /// What the item is called; the name alone selects its category.
    pub name: String,
    /// Days left before the sell-by date; zero or less once it has passed.
    pub sell_in: i32,
    /// How desirable the item is.
    pub quality: i32,
}

/// What an [`Item`] stands for: its name as characters, its numbers as
/// unbounded integers.
pub struct ItemView {
    pub name: Seq<char>,
    pub sell_in: int,
    pub quality: int,
}

impl ItemView {
    /// The category selected by the name.
    pub open spec fn category(self) -> Category {
        category_of(self.name)
    }
}

impl View for Item {
    type V = ItemView;

    open spec fn view(&self) -> ItemView {
        ItemView { name: self.name@, sell_in: self.sell_in as int, quality: self.quality as int }
    }
}

impl Item {
    /// An item with the given name, days left and quality, taken as they are.
    pub fn new(name: &str, sell_in: i32, quality: i32) -> (item: Item)
        ensures
            item@ == (ItemView { name: name@, sell_in: sell_in as int, quality: quality as int }),
    {
        Item { name: String::from_str(name), sell_in, quality }
    }

    /// The category that this item's name selects.
    pub fn category(&self) -> (category: Category)
        ensures
            category == self@.category(),
    {
        Category::of_name(self.name.as_str())
    }
}

} // verus!
