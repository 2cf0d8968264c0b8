use vstd::prelude::*;

use crate::datamap::{attached, ItemDataMap};
use crate::itemdata::{ErasedData, ItemData};

verus! {

/// A group of data values that can be attached in one call: nothing (`()`), one value, or a
/// tuple of up to ten values of distinct types.
///
/// The group says before any insertion how many values it brings, so that a map can make room
/// for all of them at once.
pub trait ItemDataReflection: Sized {
    /// The number of values in the group.
    spec fn group_size() -> nat;

    /// The contents `s` of a map after the group's values are attached one by one, in order.
    spec fn attached_to(self, s: Seq<ErasedData>) -> Seq<ErasedData>;

    /// The number of values in the group, to reserve room for them.
    fn capacity() -> (r: usize)
        ensures
            r == Self::group_size(),
    ;

    /// Attaches the group's values to `map`, each under its own type.
    fn add_data(self, map: &mut ItemDataMap)
        ensures
            final(map)@ == self.attached_to(old(map)@),
    ;
}

impl ItemDataReflection for () {
    open spec fn group_size() -> nat {
        0
    }

    open spec fn attached_to(self, s: Seq<ErasedData>) -> Seq<ErasedData> {
        s
    }

    fn capacity() -> (r: usize) {
        0
    }

    fn add_data(self, map: &mut ItemDataMap) {
    }
}

impl<D: ItemData> ItemDataReflection for D {
    open spec fn group_size() -> nat {
        1
    }

    open spec fn attached_to(self, s: Seq<ErasedData>) -> Seq<ErasedData> {
        attached(s, self)
    }

    fn capacity() -> (r: usize) {
        1
    }

    fn add_data(self, map: &mut ItemDataMap) {
        map.insert(self);
    }
}

impl<A: ItemData> ItemDataReflection for (A,) {
    open spec fn group_size() -> nat {
        1
    }

    open spec fn attached_to(self, s: Seq<ErasedData>) -> Seq<ErasedData> {
        attached(s, self.0)
    }

    fn capacity() -> (r: usize) {
        1
    }

    fn add_data(self, map: &mut ItemDataMap) {
        let (a,) = self;
        map.insert(a);
    }
}

impl<A: ItemData, B: ItemData> ItemDataReflection for (A, B) {
    open spec fn group_size() -> nat {
        2
    }

    open spec fn attached_to(self, s: Seq<ErasedData>) -> Seq<ErasedData> {
        let s1 = attached(s, self.0);
        attached(s1, self.1)
    }

    fn capacity() -> (r: usize) {
        2
    }

    fn add_data(self, map: &mut ItemDataMap) {
        let (a, b) = self;
        map.insert(a);
        map.insert(b);
    }
}

impl<A: ItemData, B: ItemData, C: ItemData> ItemDataReflection for (A, B, C) {
    open spec fn group_size() -> nat {
        3
    }

    open spec fn attached_to(self, s: Seq<ErasedData>) -> Seq<ErasedData> {
        let s1 = attached(s, self.0);
        let s2 = attached(s1, self.1);
        attached(s2, self.2)
    }

    fn capacity() -> (r: usize) {
        3
    }

    fn add_data(self, map: &mut ItemDataMap) {
        let (a, b, c) = self;
        map.insert(a);
        map.insert(b);
        map.insert(c);
    }
}

impl<A: ItemData, B: ItemData, C: ItemData, D: ItemData> ItemDataReflection for (A, B, C, D) {
    open spec fn group_size() -> nat {
        4
    }

    open spec fn attached_to(self, s: Seq<ErasedData>) -> Seq<ErasedData> {
        let s1 = attached(s, self.0);
        let s2 = attached(s1, self.1);
        let s3 = attached(s2, self.2);
        attached(s3, self.3)
    }

    fn capacity() -> (r: usize) {
        4
    }

    fn add_data(self, map: &mut ItemDataMap) {
        let (a, b, c, d) = self;
        map.insert(a);
        map.insert(b);
        map.insert(c);
        map.insert(d);
    }
}

impl<A: ItemData, B: ItemData, C: ItemData, D: ItemData, E: ItemData> ItemDataReflection for (A, B, C, D, E) {
    open spec fn group_size() -> nat {
        5
    }

    open spec fn attached_to(self, s: Seq<ErasedData>) -> Seq<ErasedData> {
        let s1 = attached(s, self.0);
        let s2 = attached(s1, self.1);
        let s3 = attached(s2, self.2);
        let s4 = attached(s3, self.3);
        attached(s4, self.4)
    }

    fn capacity() -> (r: usize) {
        5
    }

    fn add_data(self, map: &mut ItemDataMap) {
        let (a, b, c, d, e) = self;
        map.insert(a);
        map.insert(b);
        map.insert(c);
        map.insert(d);
        map.insert(e);
    }
}

impl<A: ItemData, B: ItemData, C: ItemData, D: ItemData, E: ItemData, F: ItemData> ItemDataReflection for (A, B, C, D, E, F) {
    open spec fn group_size() -> nat {
        6
    }

    open spec fn attached_to(self, s: Seq<ErasedData>) -> Seq<ErasedData> {
        let s1 = attached(s, self.0);
        let s2 = attached(s1, self.1);
        let s3 = attached(s2, self.2);
        let s4 = attached(s3, self.3);
        let s5 = attached(s4, self.4);
        attached(s5, self.5)
    }

    fn capacity() -> (r: usize) {
        6
    }

    fn add_data(self, map: &mut ItemDataMap) {
        let (a, b, c, d, e, f) = self;
        map.insert(a);
        map.insert(b);
        map.insert(c);
        map.insert(d);
        map.insert(e);
        map.insert(f);
    }
}

impl<A: ItemData, B: ItemData, C: ItemData, D: ItemData, E: ItemData, F: ItemData, G: ItemData> ItemDataReflection for (A, B, C, D, E, F, G) {
    open spec fn group_size() -> nat {
        7
    }

    open spec fn attached_to(self, s: Seq<ErasedData>) -> Seq<ErasedData> {
        let s1 = attached(s, self.0);
        let s2 = attached(s1, self.1);
        let s3 = attached(s2, self.2);
        let s4 = attached(s3, self.3);
        let s5 = attached(s4, self.4);
        let s6 = attached(s5, self.5);
        attached(s6, self.6)
    }

    fn capacity() -> (r: usize) {
        7
    }

    fn add_data(self, map: &mut ItemDataMap) {
        let (a, b, c, d, e, f, g) = self;
        map.insert(a);
        map.insert(b);
        map.insert(c);
        map.insert(d);
        map.insert(e);
        map.insert(f);
        map.insert(g);
    }
}

impl<A: ItemData, B: ItemData, C: ItemData, D: ItemData, E: ItemData, F: ItemData, G: ItemData, H: ItemData> ItemDataReflection for (A, B, C, D, E, F, G, H) {
    open spec fn group_size() -> nat {
        8
    }

    open spec fn attached_to(self, s: Seq<ErasedData>) -> Seq<ErasedData> {
        let s1 = attached(s, self.0);
        let s2 = attached(s1, self.1);
        let s3 = attached(s2, self.2);
        let s4 = attached(s3, self.3);
        let s5 = attached(s4, self.4);
        let s6 = attached(s5, self.5);
        let s7 = attached(s6, self.6);
        attached(s7, self.7)
    }

    fn capacity() -> (r: usize) {
        8
    }

    fn add_data(self, map: &mut ItemDataMap) {
        let (a, b, c, d, e, f, g, h) = self;
        map.insert(a);
        map.insert(b);
        map.insert(c);
        map.insert(d);
        map.insert(e);
        map.insert(f);
        map.insert(g);
        map.insert(h);
    }
}

impl<A: ItemData, B: ItemData, C: ItemData, D: ItemData, E: ItemData, F: ItemData, G: ItemData, H: ItemData, I: ItemData> ItemDataReflection for (A, B, C, D, E, F, G, H, I) {
    open spec fn group_size() -> nat {
        9
    }

    open spec fn attached_to(self, s: Seq<ErasedData>) -> Seq<ErasedData> {
        let s1 = attached(s, self.0);
        let s2 = attached(s1, self.1);
        let s3 = attached(s2, self.2);
        let s4 = attached(s3, self.3);
        let s5 = attached(s4, self.4);
        let s6 = attached(s5, self.5);
        let s7 = attached(s6, self.6);
        let s8 = attached(s7, self.7);
        attached(s8, self.8)
    }

    fn capacity() -> (r: usize) {
        9
    }

    fn add_data(self, map: &mut ItemDataMap) {
        let (a, b, c, d, e, f, g, h, i) = self;
        map.insert(a);
        map.insert(b);
        map.insert(c);
        map.insert(d);
        map.insert(e);
        map.insert(f);
        map.insert(g);
        map.insert(h);
        map.insert(i);
    }
}

impl<A: ItemData, B: ItemData, C: ItemData, D: ItemData, E: ItemData, F: ItemData, G: ItemData, H: ItemData, I: ItemData, J: ItemData> ItemDataReflection for (A, B, C, D, E, F, G, H, I, J) {
    open spec fn group_size() -> nat {
        10
    }

    open spec fn attached_to(self, s: Seq<ErasedData>) -> Seq<ErasedData> {
        let s1 = attached(s, self.0);
        let s2 = attached(s1, self.1);
        let s3 = attached(s2, self.2);
        let s4 = attached(s3, self.3);
        let s5 = attached(s4, self.4);
        let s6 = attached(s5, self.5);
        let s7 = attached(s6, self.6);
        let s8 = attached(s7, self.7);
        let s9 = attached(s8, self.8);
        attached(s9, self.9)
    }

    fn capacity() -> (r: usize) {
        10
    }

    fn add_data(self, map: &mut ItemDataMap) {
        let (a, b, c, d, e, f, g, h, i, j) = self;
        map.insert(a);
        map.insert(b);
        map.insert(c);
        map.insert(d);
        map.insert(e);
        map.insert(f);
        map.insert(g);
        map.insert(h);
        map.insert(i);
        map.insert(j);
    }
}

} // verus!
