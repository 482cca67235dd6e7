//! Day-by-day ageing of a shop inventory.
//!
//! Every item carries a name, the number of days left to sell it and a
//! quality score. Once per simulated day the shop advances each item; how
//! an item ages depends only on the category that its name places it in.

pub mod text;
pub mod category;
pub mod item;
pub mod rules;
pub mod shop;
pub mod days;

pub use category::Category;
pub use item::Item;
pub use shop::GildedRose;
