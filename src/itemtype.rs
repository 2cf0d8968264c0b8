use vstd::prelude::*;

use crate::datamap::{read_as, slot_of, ItemDataMap};
use crate::item::Item;
use crate::itemdata::{erase, value_is, ErasedData, ItemData};
use crate::itemdata_reflection::ItemDataReflection;

verus! {

/// An item type holds the data that its items share, and creates those items.
///
/// Two item types are equal only when they are the same object, whatever data they hold.
#[derive(Debug)]
pub struct ItemType {
    data: ItemDataMap,
}

impl View for ItemType {
    type V = Seq<ErasedData>;

    closed spec fn view(&self) -> Seq<ErasedData> {
        self.data@
    }
}

/// Relies on `std::ptr::eq`: whether the two references point at the same item type.
#[verifier::external_body]
fn same_item_type(a: &ItemType, b: &ItemType) -> bool {
    std::ptr::eq(a, b)
}

impl PartialEq for ItemType {
    fn eq(&self, other: &ItemType) -> bool {
        same_item_type(self, other)
    }
}

impl vstd::std_specs::cmp::PartialEqSpecImpl for ItemType {
    open spec fn obeys_eq_spec() -> bool {
        false
    }

    open spec fn eq_spec(&self, other: &ItemType) -> bool {
        false
    }
}

impl ItemType {
    /// An item type with no data; its map allocates nothing until data is first attached.
    pub fn new() -> (r: ItemType)
        ensures
            r@ == Seq::<ErasedData>::empty(),
    {
        ItemType { data: ItemDataMap::new() }
    }

    /// An item type holding the given data, with room made for it in one step.
    pub fn with_data<D: ItemDataReflection>(item_data: D) -> (r: ItemType)
        ensures
            r@ == item_data.attached_to(Seq::<ErasedData>::empty()),
    {
        let mut data = ItemDataMap::with_capacity(D::capacity());
        item_data.add_data(&mut data);
        ItemType { data }
    }

    /// An item type with no data and room for `data_capacity` values.
    pub fn with_capacity(data_capacity: usize) -> (r: ItemType)
        ensures
            r@ == Seq::<ErasedData>::empty(),
    {
        ItemType { data: ItemDataMap::with_capacity(data_capacity) }
    }

    /// Attaches the given data; a value replaces the one of the same type held before.
    pub fn add_data<D: ItemDataReflection>(&mut self, item_data: D)
        ensures
            final(self)@ == item_data.attached_to(old(self)@),
    {
        self.data.reserve(D::capacity());
        item_data.add_data(&mut self.data);
    }

    /// The item type's data of type `D`, if it holds some.
    pub fn get_data<D: ItemData>(&self) -> (r: Option<&D>)
        ensures
            read_as::<D>(self@, r),
    {
        self.data.get::<D>()
    }

    /// The item type's data of type `D`, if it holds some, to change in place.
    pub fn get_data_mut<D: ItemData>(&mut self) -> (r: Option<&mut D>)
        ensures
            (r is Some) == (slot_of::<D>(old(self)@) is Some),
            r is None ==> final(self)@ == old(self)@,
            r matches Some(x) ==> value_is::<D>(old(self)@[slot_of::<D>(old(self)@)->0], *x),
            r matches Some(x) ==> final(self)@ == old(self)@.update(
                slot_of::<D>(old(self)@)->0,
                erase(*final(x)),
            ),
    {
        self.data.get_mut::<D>()
    }

    /// A new item of this type, with no data of its own; its map allocates nothing until
    /// data is first attached.
    pub fn item_new(&self) -> (r: Item<'_>)
        ensures
            r.prototype() == *self,
            r@ == Seq::<ErasedData>::empty(),
    {
        Item::new(self)
    }

    /// A new item of this type holding the given data of its own.
    pub fn item_with_data<D: ItemDataReflection>(&self, item_data: D) -> (r: Item<'_>)
        ensures
            r.prototype() == *self,
            r@ == item_data.attached_to(Seq::<ErasedData>::empty()),
    {
        Item::with_data(self, item_data)
    }

    /// A new item of this type with no data of its own and room for `data_capacity` values.
    pub fn item_with_capacity(&self, data_capacity: usize) -> (r: Item<'_>)
        ensures
            r.prototype() == *self,
            r@ == Seq::<ErasedData>::empty(),
    {
        Item::with_capacity(self, data_capacity)
    }
}

} // verus!
