//! Typed data attached to game items, shared by default from their item types.
pub mod datamap;
pub mod inventory;
pub mod item;
pub mod itemdata;
pub mod itemdata_reflection;
pub mod itemtype;
pub mod laws;

pub use datamap::ItemDataMap;
pub use inventory::Inventory;
pub use inventory::InventorySelector;
pub use item::Item;
pub use itemdata::ItemData;
pub use itemdata_reflection::ItemDataReflection;
pub use itemtype::ItemType;
