use vstd::prelude::*;

use crate::item::Item;

verus! {

/// Marks a type as an inventory of items.
pub trait Inventory<'a> {
    /// Adds an item to the inventory. An item that the inventory cannot take is handed back
    /// in `Some`.
    fn add_item(&mut self, item: Item<'a>) -> Option<Item<'a>>;
}

/// Selects items of an inventory by a selector of type `S`.
pub trait InventorySelector<'a, S> {
    /// Borrows the item that `selector` picks.
    fn get_item(&self, selector: S) -> Option<&'a Item>;

    /// Borrows the item that `selector` picks, to change it.
    fn get_item_mut(&mut self, selector: S) -> Option<&'a mut Item>;

    /// Removes the item that `selector` picks and hands it over.
    fn remove_item(&mut self, selector: S) -> Option<Item<'a>>;
}

} // verus!
