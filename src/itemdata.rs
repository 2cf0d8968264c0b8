use vstd::prelude::*;

verus! {

/// Declares that a type can be attached as data to an `Item` or an `ItemType`.
///
/// The type serves as the key of its data: an item or item type holds at most one value of
/// each data type.
pub trait ItemData: 'static {}

/// A value of some `ItemData` type, boxed as `dyn Any` so that it can be handed back as its
/// concrete type.
///
/// Verus cannot take `dyn Any` in verified code, so the box stays behind this opaque struct;
/// contracts see its value through `entry_value`.
#[verifier::external_body]
#[derive(Debug)]
pub struct DataEntry {
    value: Box<dyn std::any::Any>,
}

/// A value of some `ItemData` type, as contracts see it once its type is erased.
pub struct ErasedData {
    value: Box<dyn ItemData>,
}

/// The value that an entry's box holds.
pub uninterp spec fn entry_value(e: DataEntry) -> ErasedData;

/// The value `v` with its concrete type erased.
#[verifier::opaque]
pub closed spec fn erase<D: ItemData>(v: D) -> ErasedData {
    ErasedData { value: Box::new(v) }
}

/// The erased value `b` is a value of type `D`.
pub open spec fn holds<D: ItemData>(b: ErasedData) -> bool {
    exists|d: D| erase(d) == b
}

/// The erased value `b` is a value of type `D`, and that value is `x`.
pub open spec fn value_is<D: ItemData>(b: ErasedData, x: D) -> bool {
    holds::<D>(b) && forall|d: D| #[trigger] erase(d) == b ==> d == x
}

/// No value of type `A` is a value of type `B`, and no value of type `B` is one of type `A`:
/// `A` and `B` are different data types.
pub open spec fn distinct_types<A: ItemData, B: ItemData>() -> bool {
    &&& forall|x: A| !holds::<B>(#[trigger] erase(x))
    &&& forall|y: B| !holds::<A>(#[trigger] erase(y))
}

proof fn lemma_holds_witness<D: ItemData>(v: D, b: ErasedData)
    requires
        b == erase(v),
    ensures
        holds::<D>(b),
{
}

/// The erasure of a `D` holds a `D`.
pub proof fn lemma_erase_holds<D: ItemData>(v: D)
    ensures
        holds::<D>(erase(v)),
{
    lemma_holds_witness(v, erase(v));
}

/// Relies on downcast_rs's `Downcast::into_any`: boxes `v` as `Box<dyn Any>` without
/// changing it, so the entry holds `v`.
#[verifier::external_body]
pub(crate) fn pack<D: ItemData>(v: D) -> (r: DataEntry)
    ensures
        entry_value(r) == erase(v),
{
    DataEntry { value: downcast_rs::Downcast::into_any(Box::new(v)) }
}

/// Relies on std's `<dyn Any>::downcast_ref`: a reference to the held value exactly when
/// its concrete type is `D`.
#[verifier::external_body]
pub(crate) fn downcast_ref<D: ItemData>(e: &DataEntry) -> (r: Option<&D>)
    ensures
        (r is Some) == holds::<D>(entry_value(*e)),
        r matches Some(x) ==> value_is::<D>(entry_value(*e), *x),
{
    e.value.downcast_ref::<D>()
}

/// Relies on std's `<dyn Any>::downcast_mut`: a mutable reference to the held value exactly
/// when its concrete type is `D`; what is written through it is what the entry then holds.
#[verifier::external_body]
pub(crate) fn downcast_mut<D: ItemData>(e: &mut DataEntry) -> (r: Option<&mut D>)
    ensures
        (r is Some) == holds::<D>(entry_value(*old(e))),
        r is None ==> *final(e) == *old(e),
        r matches Some(x) ==> value_is::<D>(entry_value(*old(e)), *x),
        r matches Some(x) ==> entry_value(*final(e)) == erase(*final(x)),
{
    e.value.downcast_mut::<D>()
}

} // verus!
