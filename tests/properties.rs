use shrub::{ItemData, ItemDataMap, ItemDataReflection, ItemType};

#[derive(Debug, PartialEq)]
struct Durability {
    value: u32,
}

impl ItemData for Durability {}

#[derive(Debug, PartialEq)]
struct Weight {
    grams: u64,
}

impl ItemData for Weight {}

#[derive(Debug, PartialEq)]
struct Name(String);

impl ItemData for Name {}

#[derive(Debug, PartialEq)]
struct D0(u8);
impl ItemData for D0 {}
#[derive(Debug, PartialEq)]
struct D1(u8);
impl ItemData for D1 {}
#[derive(Debug, PartialEq)]
struct D2(u8);
impl ItemData for D2 {}
#[derive(Debug, PartialEq)]
struct D3(u8);
impl ItemData for D3 {}
#[derive(Debug, PartialEq)]
struct D4(u8);
impl ItemData for D4 {}
#[derive(Debug, PartialEq)]
struct D5(u8);
impl ItemData for D5 {}
#[derive(Debug, PartialEq)]
struct D6(u8);
impl ItemData for D6 {}
#[derive(Debug, PartialEq)]
struct D7(u8);
impl ItemData for D7 {}
#[derive(Debug, PartialEq)]
struct D8(u8);
impl ItemData for D8 {}
#[derive(Debug, PartialEq)]
struct D9(u8);
impl ItemData for D9 {}

#[test]
fn read_after_attach_gives_value() {
    let item_type = ItemType::new();
    let mut item = item_type.item_new();
    item.add_data(Weight { grams: 250 });
    assert_eq!(item.get_data::<Weight>(), Some(&Weight { grams: 250 }));
    let mut map = ItemDataMap::new();
    map.insert(Name(String::from("axe")));
    assert_eq!(map.get::<Name>(), Some(&Name(String::from("axe"))));
}

#[test]
fn edit_through_read_mut_is_seen_by_read() {
    let mut item_type = ItemType::with_data(Durability { value: 3 });
    item_type.get_data_mut::<Durability>().unwrap().value = 4;
    assert_eq!(item_type.get_data::<Durability>(), Some(&Durability { value: 4 }));

    let mut map = ItemDataMap::new();
    map.insert(Weight { grams: 1 });
    map.get_mut::<Weight>().unwrap().grams = 2;
    assert_eq!(map.get::<Weight>(), Some(&Weight { grams: 2 }));
    assert_eq!(map.len(), 1);
}

#[test]
fn overwrite_keeps_only_last_value() {
    let mut map = ItemDataMap::new();
    map.insert(Durability { value: 1 });
    map.insert(Durability { value: 2 });
    assert_eq!(map.get::<Durability>(), Some(&Durability { value: 2 }));
    assert_eq!(map.len(), 1);

    let item_type = ItemType::new();
    let mut item = item_type.item_new();
    item.add_data(Durability { value: 10 });
    item.add_data(Durability { value: 11 });
    assert_eq!(item.get_data::<Durability>(), Some(&Durability { value: 11 }));
}

#[test]
fn item_falls_back_to_item_type_until_it_attaches() {
    let item_type = ItemType::with_data((Durability { value: 9 }, Weight { grams: 40 }));
    let mut item = item_type.item_new();
    assert_eq!(item.get_data::<Durability>(), item_type.get_data::<Durability>());
    assert_eq!(item.get_data::<Weight>(), Some(&Weight { grams: 40 }));
    assert!(item.get_data::<Name>().is_none());

    item.add_data(Durability { value: 1 });
    assert_eq!(item.get_data::<Durability>(), Some(&Durability { value: 1 }));
    assert_eq!(item_type.get_data::<Durability>(), Some(&Durability { value: 9 }));
    assert_eq!(item.get_data::<Weight>(), Some(&Weight { grams: 40 }));
}

#[test]
fn read_mut_never_falls_back() {
    let item_type = ItemType::with_data(Durability { value: 9 });
    let mut item = item_type.item_new();
    assert!(item.get_data_mut::<Durability>().is_none());
    assert!(item.get_data_mut::<Weight>().is_none());

    let copy = Durability { value: item.get_data::<Durability>().unwrap().value };
    item.add_data(copy);
    item.get_data_mut::<Durability>().unwrap().value = 8;
    assert_eq!(item.get_data::<Durability>(), Some(&Durability { value: 8 }));
    assert_eq!(item_type.get_data::<Durability>(), Some(&Durability { value: 9 }));
}

#[test]
fn bulk_attach_matches_sequential_attach() {
    let mut bulk = ItemDataMap::new();
    (Durability { value: 5 }, Weight { grams: 6 }, Name(String::from("bow"))).add_data(&mut bulk);
    let mut one_by_one = ItemDataMap::new();
    Durability { value: 5 }.add_data(&mut one_by_one);
    Weight { grams: 6 }.add_data(&mut one_by_one);
    Name(String::from("bow")).add_data(&mut one_by_one);

    assert_eq!(bulk.len(), one_by_one.len());
    assert_eq!(bulk.len(), 3);
    assert_eq!(bulk.get::<Durability>(), one_by_one.get::<Durability>());
    assert_eq!(bulk.get::<Weight>(), one_by_one.get::<Weight>());
    assert_eq!(bulk.get::<Name>(), one_by_one.get::<Name>());
    assert_eq!(bulk.get::<Name>(), Some(&Name(String::from("bow"))));
}

#[test]
fn group_capacity_is_its_size() {
    assert_eq!(<() as ItemDataReflection>::capacity(), 0);
    assert_eq!(<Durability as ItemDataReflection>::capacity(), 1);
    assert_eq!(<(Durability,) as ItemDataReflection>::capacity(), 1);
    assert_eq!(<(Durability, Weight) as ItemDataReflection>::capacity(), 2);
    assert_eq!(
        <(D0, D1, D2, D3, D4, D5, D6, D7, D8, D9) as ItemDataReflection>::capacity(),
        10
    );
}

#[test]
fn group_of_ten_attaches_every_member() {
    let item_type = ItemType::with_data((D0(0), D1(1), D2(2), D3(3), D4(4), D5(5), D6(6), D7(7), D8(8), D9(9)));
    assert_eq!(item_type.get_data::<D0>(), Some(&D0(0)));
    assert_eq!(item_type.get_data::<D4>(), Some(&D4(4)));
    assert_eq!(item_type.get_data::<D9>(), Some(&D9(9)));
    let mut map = ItemDataMap::new();
    (D0(0), D1(1), D2(2), D3(3), D4(4), D5(5), D6(6), D7(7), D8(8), D9(9)).add_data(&mut map);
    assert_eq!(map.len(), 10);
    assert_eq!(map.get::<D7>(), Some(&D7(7)));
}

#[test]
fn group_with_repeated_type_keeps_last_member() {
    let mut map = ItemDataMap::new();
    (Durability { value: 1 }, Weight { grams: 2 }, Durability { value: 3 }).add_data(&mut map);
    assert_eq!(map.len(), 2);
    assert_eq!(map.get::<Durability>(), Some(&Durability { value: 3 }));
}

#[test]
fn item_types_are_equal_only_to_themselves() {
    let first = ItemType::with_data(Durability { value: 1 });
    let second = ItemType::with_data(Durability { value: 1 });
    assert!(first == first);
    assert!(first != second);
    assert!(first.item_new().item_type == &first);
    assert!(second.item_new().item_type != &first);
}

#[test]
fn sword_scenario() {
    let sword = ItemType::with_data(Durability { value: 100 });
    let mut i1 = sword.item_new();
    assert_eq!(i1.get_data::<Durability>().unwrap().value, 100);
    i1.add_data(Durability { value: 87 });
    assert_eq!(i1.get_data::<Durability>().unwrap().value, 87);
    let i2 = sword.item_new();
    assert_eq!(i2.get_data::<Durability>().unwrap().value, 100);
}

#[test]
fn empty_group_leaves_fresh_container_empty() {
    let mut map = ItemDataMap::new();
    ().add_data(&mut map);
    assert_eq!(map.len(), 0);
    assert!(map.get::<Durability>().is_none());

    let mut item_type = ItemType::new();
    item_type.add_data(());
    assert!(item_type.get_data::<Durability>().is_none());
    let item = item_type.item_with_data(());
    assert!(item.get_data::<Durability>().is_none());
}

#[test]
fn missing_data_reads_as_nothing() {
    let item_type = ItemType::with_capacity(4);
    let item = item_type.item_with_capacity(4);
    assert!(item_type.get_data::<Weight>().is_none());
    assert!(item.get_data::<Weight>().is_none());
    let map = ItemDataMap::with_capacity(2);
    assert_eq!(map.len(), 0);
    assert!(map.get::<Weight>().is_none());
}

#[test]
fn reads_pick_the_value_of_the_asked_type() {
    let mut map = ItemDataMap::new();
    map.insert(D0(10));
    map.insert(D1(20));
    assert_eq!(map.get::<D0>(), Some(&D0(10)));
    assert_eq!(map.get::<D1>(), Some(&D1(20)));
    assert!(map.get::<D2>().is_none());
    map.get_mut::<D1>().unwrap().0 = 21;
    assert_eq!(map.get::<D0>(), Some(&D0(10)));
    assert_eq!(map.get::<D1>(), Some(&D1(21)));
    assert!(map.get_mut::<D2>().is_none());
}

#[test]
fn reserve_keeps_contents() {
    let mut map = ItemDataMap::new();
    map.insert(Weight { grams: 3 });
    map.reserve(16);
    assert_eq!(map.len(), 1);
    assert_eq!(map.get::<Weight>(), Some(&Weight { grams: 3 }));
}
