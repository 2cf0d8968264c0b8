use vstd::prelude::*;

use crate::datamap::{read_as, slot_of, ItemDataMap};
use crate::itemdata::{erase, value_is, ErasedData, ItemData};
use crate::itemdata_reflection::ItemDataReflection;
use crate::itemtype::ItemType;

verus! {

/// `r` is what reading type `D` from an item gives, where `own` is the item's own data and
/// `shared` its type's: the item's own value when it holds one, else its type's.
pub open spec fn item_read_as<D: ItemData>(
    own: Seq<ErasedData>,
    shared: Seq<ErasedData>,
    r: Option<&D>,
) -> bool {
    if slot_of::<D>(own) is Some {
        read_as::<D>(own, r)
    } else {
        read_as::<D>(shared, r)
    }
}

/// An item: data of its own, over the data shared by its item type.
pub struct Item<'t> {
    /// The item type whose data the item reads where it holds none of its own.
    pub item_type: &'t ItemType,
    data: ItemDataMap,
}

impl<'t> View for Item<'t> {
    type V = Seq<ErasedData>;

    /// The item's own data, without its type's.
    closed spec fn view(&self) -> Seq<ErasedData> {
        self.data@
    }
}

impl<'t> Item<'t> {
    /// The item type the item belongs to.
    pub closed spec fn prototype(&self) -> ItemType {
        *self.item_type
    }

    /// An item of `item_type` with no data of its own; its map allocates nothing until data
    /// is first attached.
    pub fn new(item_type: &'t ItemType) -> (r: Item<'t>)
        ensures
            r.prototype() == *item_type,
            r@ == Seq::<ErasedData>::empty(),
    {
        Item { item_type, data: ItemDataMap::new() }
    }

    /// An item of `item_type` holding the given data of its own, with room made for it in
    /// one step.
    pub fn with_data<D: ItemDataReflection>(item_type: &'t ItemType, item_data: D) -> (r: Item<'t>)
        ensures
            r.prototype() == *item_type,
            r@ == item_data.attached_to(Seq::<ErasedData>::empty()),
    {
        let mut data = ItemDataMap::with_capacity(D::capacity());
        item_data.add_data(&mut data);
        Item { item_type, data }
    }

    /// An item of `item_type` with no data of its own and room for `data_capacity` values.
    pub fn with_capacity(item_type: &'t ItemType, data_capacity: usize) -> (r: Item<'t>)
        ensures
            r.prototype() == *item_type,
            r@ == Seq::<ErasedData>::empty(),
    {
        Item { item_type, data: ItemDataMap::with_capacity(data_capacity) }
    }

    /// Attaches the given data to the item itself; a value replaces the item's own value of
    /// the same type. The item type is left as it is.
    pub fn add_data<D: ItemDataReflection>(&mut self, item_data: D)
        ensures
            final(self)@ == item_data.attached_to(old(self)@),
            final(self).prototype() == old(self).prototype(),
    {
        self.data.reserve(D::capacity());
        item_data.add_data(&mut self.data);
    }

    /// The item's data of type `D`: its own if it holds some, else its item type's.
    pub fn get_data<D: ItemData>(&self) -> (r: Option<&D>)
        ensures
            item_read_as::<D>(self@, self.prototype()@, r),
    {
        match self.data.get::<D>() {
            Some(d) => Some(d),
            None => self.item_type.get_data::<D>(),
        }
    }

    /// The item's own data of type `D`, to change in place. Unlike `get_data`, this never
    /// looks at the item type: without a value of its own the item gives nothing.
    pub fn get_data_mut<D: ItemData>(&mut self) -> (r: Option<&mut D>)
        ensures
            (r is Some) == (slot_of::<D>(old(self)@) is Some),
            final(self).prototype() == old(self).prototype(),
            r is None ==> final(self)@ == old(self)@,
            r matches Some(x) ==> value_is::<D>(old(self)@[slot_of::<D>(old(self)@)->0], *x),
            r matches Some(x) ==> final(self)@ == old(self)@.update(
                slot_of::<D>(old(self)@)->0,
                erase(*final(x)),
            ),
    {
        self.data.get_mut::<D>()
    }
}

} // verus!
