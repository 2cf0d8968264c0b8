use vstd::prelude::*;

use crate::itemdata::{
    downcast_mut, downcast_ref, entry_value, erase, holds, lemma_erase_holds, pack, value_is,
    DataEntry, ErasedData, ItemData,
};

verus! {

/// Index `i` is the first of `s` that holds a value of type `D`: this is where a `D` lives.
pub open spec fn is_slot<D: ItemData>(s: Seq<ErasedData>, i: int) -> bool {
    &&& 0 <= i < s.len()
    &&& holds::<D>(s[i])
    &&& forall|j: int| 0 <= j < i ==> !#[trigger] holds::<D>(s[j])
}

/// Where the value of type `D` lives in `s`, if `s` holds one.
pub open spec fn slot_of<D: ItemData>(s: Seq<ErasedData>) -> Option<int> {
    if exists|i: int| is_slot::<D>(s, i) {
        Some(choose|i: int| is_slot::<D>(s, i))
    } else {
        None
    }
}

/// `r` is what reading type `D` from `s` gives: nothing when `s` holds no `D`,
/// else the `D` that `s` holds.
pub open spec fn read_as<D: ItemData>(s: Seq<ErasedData>, r: Option<&D>) -> bool {
    match slot_of::<D>(s) {
        None => r is None,
        Some(i) => r matches Some(x) && value_is::<D>(s[i], *x),
    }
}

/// `s` after attaching `v`: it replaces the `D` that `s` holds, or is added after the rest.
pub open spec fn attached<D: ItemData>(s: Seq<ErasedData>, v: D) -> Seq<ErasedData> {
    match slot_of::<D>(s) {
        Some(i) => s.update(i, erase(v)),
        None => s.push(erase(v)),
    }
}

/// A slot is the only one: it is where `slot_of` points.
pub proof fn lemma_slot_unique<D: ItemData>(s: Seq<ErasedData>, i: int)
    requires
        is_slot::<D>(s, i),
    ensures
        slot_of::<D>(s) == Some(i),
{
    let k = choose|k: int| is_slot::<D>(s, k);
    assert(is_slot::<D>(s, k));
    if k < i {
        assert(!holds::<D>(s[k]));
    } else if k > i {
        assert(!holds::<D>(s[i]));
    }
}

/// Where some entry holds a `D`, there is a slot for `D`.
pub proof fn lemma_slot_exists<D: ItemData>(s: Seq<ErasedData>, i: int)
    requires
        0 <= i < s.len(),
        holds::<D>(s[i]),
    ensures
        slot_of::<D>(s) is Some,
    decreases i,
{
    if exists|j: int| 0 <= j < i && #[trigger] holds::<D>(s[j]) {
        let j = choose|j: int| 0 <= j < i && #[trigger] holds::<D>(s[j]);
        lemma_slot_exists::<D>(s, j);
    } else {
        assert(is_slot::<D>(s, i));
    }
}

/// With no slot for `D`, no entry of `s` holds a `D`.
pub proof fn lemma_no_slot<D: ItemData>(s: Seq<ErasedData>)
    requires
        slot_of::<D>(s) is None,
    ensures
        forall|j: int| 0 <= j < s.len() ==> !#[trigger] holds::<D>(s[j]),
{
    assert forall|j: int| 0 <= j < s.len() implies !#[trigger] holds::<D>(s[j]) by {
        if holds::<D>(s[j]) {
            lemma_slot_exists::<D>(s, j);
        }
    }
}

/// After attaching `v`, the slot for `D` holds `v`: where the old `D` was, or at the end.
pub proof fn lemma_slot_of_attached<D: ItemData>(s: Seq<ErasedData>, v: D)
    ensures
        slot_of::<D>(attached(s, v)) == Some(
            match slot_of::<D>(s) {
                Some(i) => i,
                None => s.len() as int,
            },
        ),
        attached(s, v)[slot_of::<D>(attached(s, v))->0] == erase(v),
{
    let t = attached(s, v);
    lemma_erase_holds(v);
    match slot_of::<D>(s) {
        Some(i) => {
            assert(is_slot::<D>(s, i));
            assert forall|j: int| 0 <= j < i implies !#[trigger] holds::<D>(t[j]) by {
                assert(t[j] == s[j]);
            }
            assert(is_slot::<D>(t, i));
            lemma_slot_unique::<D>(t, i);
        },
        None => {
            lemma_no_slot::<D>(s);
            let n = s.len() as int;
            assert(forall|j: int| 0 <= j < n ==> t[j] == s[j]);
            assert(is_slot::<D>(t, n));
            lemma_slot_unique::<D>(t, n);
        },
    }
}

/// The type-keyed map behind items and item types.
///
/// Its contents are a sequence of erased values. A value of type `D` is found by its type
/// alone: it is the first entry that holds a `D`, and attaching a `D` replaces that entry
/// rather than adding one. Lookups try each entry in turn.
#[derive(Debug)]
pub struct ItemDataMap {
    entries: Vec<DataEntry>,
}

impl View for ItemDataMap {
    type V = Seq<ErasedData>;

    closed spec fn view(&self) -> Seq<ErasedData> {
        self.entries@.map_values(|e: DataEntry| entry_value(e))
    }
}

impl ItemDataMap {
    /// An empty map; it allocates nothing until the first insertion.
    pub fn new() -> (r: ItemDataMap)
        ensures
            r@ == Seq::<ErasedData>::empty(),
    {
        let r = ItemDataMap { entries: Vec::new() };
        assert(r@ =~= Seq::<ErasedData>::empty());
        r
    }

    /// An empty map with room for `capacity` values.
    pub fn with_capacity(capacity: usize) -> (r: ItemDataMap)
        ensures
            r@ == Seq::<ErasedData>::empty(),
    {
        let r = ItemDataMap { entries: Vec::with_capacity(capacity) };
        assert(r@ =~= Seq::<ErasedData>::empty());
        r
    }

    /// Makes room for `additional` more values; the contents stay as they are.
    pub fn reserve(&mut self, additional: usize)
        ensures
            final(self)@ == old(self)@,
    {
        self.entries.reserve(additional);
    }

    /// The number of values held.
    pub fn len(&self) -> (r: usize)
        ensures
            r == self@.len(),
    {
        self.entries.len()
    }

    /// The index of the slot for `D`, if the map holds a `D`.
    fn find<D: ItemData>(&self) -> (r: Option<usize>)
        ensures
            r is None ==> slot_of::<D>(self@) is None,
            r matches Some(i) ==> slot_of::<D>(self@) == Some(i as int) && i < self@.len(),
    {
        let mut i: usize = 0;
        while i < self.entries.len()
            invariant
                i <= self.entries@.len(),
                forall|j: int| 0 <= j < i ==> !#[trigger] holds::<D>(self@[j]),
            decreases self.entries@.len() - i,
        {
            let found = downcast_ref::<D>(&self.entries[i]);
            if found.is_some() {
                assert(is_slot::<D>(self@, i as int));
                proof {
                    lemma_slot_unique::<D>(self@, i as int);
                }
                return Some(i);
            }
            i += 1;
        }
        assert(!exists|k: int| is_slot::<D>(self@, k));
        None
    }

    /// Stores `v` as the map's value of type `D`, replacing the one held before.
    pub fn insert<D: ItemData>(&mut self, v: D)
        ensures
            final(self)@ == attached::<D>(old(self)@, v),
    {
        let e = pack(v);
        match self.find::<D>() {
            Some(i) => {
                self.entries.set(i, e);
                assert(self.entries@ == old(self).entries@.update(i as int, e));
                assert(self@ =~= old(self)@.update(i as int, erase(v)));
            },
            None => {
                self.entries.push(e);
                assert(self.entries@ == old(self).entries@.push(e));
                assert(self@ =~= old(self)@.push(erase(v)));
            },
        }
    }

    /// The map's value of type `D`, if it holds one.
    pub fn get<D: ItemData>(&self) -> (r: Option<&D>)
        ensures
            read_as::<D>(self@, r),
    {
        match self.find::<D>() {
            Some(i) => downcast_ref::<D>(&self.entries[i]),
            None => None,
        }
    }

    /// The map's value of type `D`, if it holds one, to change in place.
    pub fn get_mut<D: ItemData>(&mut self) -> (r: Option<&mut D>)
        ensures
            (r is Some) == (slot_of::<D>(old(self)@) is Some),
            r is None ==> final(self)@ == old(self)@,
            r matches Some(x) ==> value_is::<D>(old(self)@[slot_of::<D>(old(self)@)->0], *x),
            r matches Some(x) ==> final(self)@ == old(self)@.update(
                slot_of::<D>(old(self)@)->0,
                erase(*final(x)),
            ),
    {
        match self.find::<D>() {
            Some(i) => {
                let r = downcast_mut::<D>(&mut self.entries[i]);
                proof {
                    let old_entries = old(self).entries@;
                    assert(after_borrow(self.entries)@ == old_entries.update(
                        i as int,
                        after_borrow(self.entries)@[i as int],
                    ));
                }
                r
            },
            None => None,
        }
    }
}

} // verus!
