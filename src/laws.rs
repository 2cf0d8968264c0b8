use vstd::prelude::*;

use crate::datamap::{
    attached, is_slot, lemma_no_slot, lemma_slot_of_attached, lemma_slot_unique, read_as, slot_of,
};
use crate::item::item_read_as;
use crate::itemdata::{distinct_types, erase, holds, ErasedData, ItemData};
use crate::itemdata_reflection::ItemDataReflection;

verus! {

/// Reading type `D` after attaching `v` gives `v`.
pub proof fn lemma_read_after_attach<D: ItemData>(s: Seq<ErasedData>, v: D, r: Option<&D>)
    requires
        read_as::<D>(attached(s, v), r),
    ensures
        r == Some(&v),
{
    lemma_slot_of_attached(s, v);
}

/// After `w` is written through a mutable borrow of the `D` that `s` holds, reading `D`
/// gives `w`.
pub proof fn lemma_read_after_edit<D: ItemData>(s: Seq<ErasedData>, w: D, r: Option<&D>)
    requires
        slot_of::<D>(s) is Some,
        read_as::<D>(s.update(slot_of::<D>(s)->0, erase(w)), r),
    ensures
        r == Some(&w),
{
    assert(s.update(slot_of::<D>(s)->0, erase(w)) == attached(s, w));
    lemma_read_after_attach(s, w, r);
}

/// Attaching `v1` and then `v2` of the same type leaves exactly what attaching `v2` alone
/// leaves: nothing of `v1` remains.
pub proof fn lemma_overwrite<D: ItemData>(s: Seq<ErasedData>, v1: D, v2: D)
    ensures
        attached(attached(s, v1), v2) == attached(s, v2),
{
    lemma_slot_of_attached(s, v1);
    match slot_of::<D>(s) {
        Some(i) => {
            assert(attached(attached(s, v1), v2) =~= attached(s, v2));
        },
        None => {
            assert(attached(attached(s, v1), v2) =~= attached(s, v2));
        },
    }
}

/// Attaching a value of another data type leaves what reading type `A` gives as it was.
pub proof fn lemma_attach_keeps_other_types<A: ItemData, B: ItemData>(
    s: Seq<ErasedData>,
    b: B,
    r: Option<&A>,
)
    requires
        distinct_types::<A, B>(),
    ensures
        read_as::<A>(attached(s, b), r) == read_as::<A>(s, r),
{
    let t = attached(s, b);
    assert(!holds::<A>(erase(b)));
    // An entry that holds a `B` holds no `A`.
    assert forall|k: int| 0 <= k < s.len() && #[trigger] holds::<B>(s[k]) implies !holds::<A>(
        s[k],
    ) by {
        let y = choose|y: B| erase(y) == s[k];
        assert(!holds::<A>(erase(y)));
    }
    // Every entry of `t` holds an `A` exactly where `s` does, and the two agree there.
    assert forall|k: int| 0 <= k < t.len() implies (#[trigger] holds::<A>(t[k]) == (k < s.len()
        && holds::<A>(s[k]))) && (holds::<A>(t[k]) ==> t[k] == s[k]) by {
        match slot_of::<B>(s) {
            Some(j) => {
                assert(is_slot::<B>(s, j));
                if k == j {
                    assert(!holds::<A>(s[k]));
                }
            },
            None => {},
        }
    }
    match slot_of::<A>(s) {
        Some(i) => {
            assert(is_slot::<A>(s, i));
            assert(is_slot::<A>(t, i));
            lemma_slot_unique::<A>(t, i);
        },
        None => {
            lemma_no_slot::<A>(s);
            if slot_of::<A>(t) is Some {
                let i = choose|i: int| is_slot::<A>(t, i);
                assert(is_slot::<A>(t, i));
            }
        },
    }
}

/// Attaching a pair of values of two different data types in one call stores each under its
/// own type: reading either type gives its member.
pub proof fn lemma_pair_members_read_back<A: ItemData, B: ItemData>(
    s: Seq<ErasedData>,
    a: A,
    b: B,
    ra: Option<&A>,
    rb: Option<&B>,
)
    requires
        distinct_types::<A, B>(),
        read_as::<A>((a, b).attached_to(s), ra),
        read_as::<B>((a, b).attached_to(s), rb),
    ensures
        ra == Some(&a),
        rb == Some(&b),
{
    let s1 = attached(s, a);
    lemma_read_after_attach(s1, b, rb);
    lemma_attach_keeps_other_types::<A, B>(s1, b, ra);
    lemma_read_after_attach(s, a, ra);
}

/// An item that holds no `D` of its own reads the `D` of its item type.
pub proof fn lemma_item_falls_back<D: ItemData>(
    own: Seq<ErasedData>,
    shared: Seq<ErasedData>,
    r: Option<&D>,
)
    requires
        slot_of::<D>(own) is None,
    ensures
        item_read_as::<D>(own, shared, r) == read_as::<D>(shared, r),
{
}

/// Once an item has attached `v` of type `D`, reading `D` from it gives `v`, whatever its
/// item type holds.
pub proof fn lemma_item_read_after_attach<D: ItemData>(
    own: Seq<ErasedData>,
    shared: Seq<ErasedData>,
    v: D,
    r: Option<&D>,
)
    requires
        item_read_as::<D>(attached(own, v), shared, r),
    ensures
        r == Some(&v),
{
    lemma_slot_of_attached(own, v);
    lemma_read_after_attach(own, v, r);
}

/// After `w` is written through a mutable borrow of an item's own `D`, reading `D` from the
/// item gives `w`.
pub proof fn lemma_item_read_after_edit<D: ItemData>(
    own: Seq<ErasedData>,
    shared: Seq<ErasedData>,
    w: D,
    r: Option<&D>,
)
    requires
        slot_of::<D>(own) is Some,
        item_read_as::<D>(own.update(slot_of::<D>(own)->0, erase(w)), shared, r),
    ensures
        r == Some(&w),
{
    assert(own.update(slot_of::<D>(own)->0, erase(w)) == attached(own, w));
    lemma_item_read_after_attach(own, shared, w, r);
}

/// Attaching a group of one value in one call leaves the same contents as attaching
/// it one by one, in order.
pub proof fn lemma_group_of_one_is_sequential<A: ItemData>(s: Seq<ErasedData>, a: A)
    ensures
        (a,).attached_to(s) == a.attached_to(s),
{
}

/// Attaching a group of two values in one call leaves the same contents as attaching
/// them one by one, in order.
pub proof fn lemma_group_of_two_is_sequential<A: ItemData, B: ItemData>(s: Seq<ErasedData>, a: A, b: B)
    ensures
        (a, b).attached_to(s) == b.attached_to(a.attached_to(s)),
{
}

/// Attaching a group of three values in one call leaves the same contents as attaching
/// them one by one, in order.
pub proof fn lemma_group_of_three_is_sequential<A: ItemData, B: ItemData, C: ItemData>(s: Seq<ErasedData>, a: A, b: B, c: C)
    ensures
        (a, b, c).attached_to(s) == c.attached_to(b.attached_to(a.attached_to(s))),
{
}

/// Attaching a group of four values in one call leaves the same contents as attaching
/// them one by one, in order.
pub proof fn lemma_group_of_four_is_sequential<A: ItemData, B: ItemData, C: ItemData, D: ItemData>(s: Seq<ErasedData>, a: A, b: B, c: C, d: D)
    ensures
        (a, b, c, d).attached_to(s) == d.attached_to(c.attached_to(b.attached_to(a.attached_to(s)))),
{
}

/// Attaching a group of five values in one call leaves the same contents as attaching
/// them one by one, in order.
pub proof fn lemma_group_of_five_is_sequential<A: ItemData, B: ItemData, C: ItemData, D: ItemData, E: ItemData>(s: Seq<ErasedData>, a: A, b: B, c: C, d: D, e: E)
    ensures
        (a, b, c, d, e).attached_to(s) == e.attached_to(d.attached_to(c.attached_to(b.attached_to(a.attached_to(s))))),
{
}

/// Attaching a group of six values in one call leaves the same contents as attaching
/// them one by one, in order.
pub proof fn lemma_group_of_six_is_sequential<A: ItemData, B: ItemData, C: ItemData, D: ItemData, E: ItemData, F: ItemData>(s: Seq<ErasedData>, a: A, b: B, c: C, d: D, e: E, f: F)
    ensures
        (a, b, c, d, e, f).attached_to(s) == f.attached_to(e.attached_to(d.attached_to(c.attached_to(b.attached_to(a.attached_to(s)))))),
{
}

/// Attaching a group of seven values in one call leaves the same contents as attaching
/// them one by one, in order.
pub proof fn lemma_group_of_seven_is_sequential<A: ItemData, B: ItemData, C: ItemData, D: ItemData, E: ItemData, F: ItemData, G: ItemData>(s: Seq<ErasedData>, a: A, b: B, c: C, d: D, e: E, f: F, g: G)
    ensures
        (a, b, c, d, e, f, g).attached_to(s) == g.attached_to(f.attached_to(e.attached_to(d.attached_to(c.attached_to(b.attached_to(a.attached_to(s))))))),
{
}

/// Attaching a group of eight values in one call leaves the same contents as attaching
/// them one by one, in order.
pub proof fn lemma_group_of_eight_is_sequential<A: ItemData, B: ItemData, C: ItemData, D: ItemData, E: ItemData, F: ItemData, G: ItemData, H: ItemData>(s: Seq<ErasedData>, a: A, b: B, c: C, d: D, e: E, f: F, g: G, h: H)
    ensures
        (a, b, c, d, e, f, g, h).attached_to(s) == h.attached_to(g.attached_to(f.attached_to(e.attached_to(d.attached_to(c.attached_to(b.attached_to(a.attached_to(s)))))))),
{
}

/// Attaching a group of nine values in one call leaves the same contents as attaching
/// them one by one, in order.
pub proof fn lemma_group_of_nine_is_sequential<A: ItemData, B: ItemData, C: ItemData, D: ItemData, E: ItemData, F: ItemData, G: ItemData, H: ItemData, I: ItemData>(s: Seq<ErasedData>, a: A, b: B, c: C, d: D, e: E, f: F, g: G, h: H, i: I)
    ensures
        (a, b, c, d, e, f, g, h, i).attached_to(s) == i.attached_to(h.attached_to(g.attached_to(f.attached_to(e.attached_to(d.attached_to(c.attached_to(b.attached_to(a.attached_to(s))))))))),
{
}

/// Attaching a group of ten values in one call leaves the same contents as attaching
/// them one by one, in order.
pub proof fn lemma_group_of_ten_is_sequential<A: ItemData, B: ItemData, C: ItemData, D: ItemData, E: ItemData, F: ItemData, G: ItemData, H: ItemData, I: ItemData, J: ItemData>(s: Seq<ErasedData>, a: A, b: B, c: C, d: D, e: E, f: F, g: G, h: H, i: I, j: J)
    ensures
        (a, b, c, d, e, f, g, h, i, j).attached_to(s) == j.attached_to(i.attached_to(h.attached_to(g.attached_to(f.attached_to(e.attached_to(d.attached_to(c.attached_to(b.attached_to(a.attached_to(s)))))))))),
{
}

} // verus!
