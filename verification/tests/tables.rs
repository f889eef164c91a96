use mediator::table::Table;
use std::any::TypeId;

#[test]
fn empty_table_has_no_value() {
    let table: Table<u32> = Table::new();

    assert_eq!(table.get(&TypeId::of::<u8>()), None);
}

#[test]
fn put_sets_and_replaces_the_value_of_a_key() {
    let mut table: Table<u32> = Table::new();

    table.put(TypeId::of::<u8>(), 1);
    table.put(TypeId::of::<u16>(), 2);
    assert_eq!(table.get(&TypeId::of::<u8>()), Some(&1));
    assert_eq!(table.get(&TypeId::of::<u16>()), Some(&2));
    assert_eq!(table.get(&TypeId::of::<u32>()), None);

    table.put(TypeId::of::<u8>(), 3);
    assert_eq!(table.get(&TypeId::of::<u8>()), Some(&3));
    assert_eq!(table.get(&TypeId::of::<u16>()), Some(&2));
}

#[test]
fn append_keeps_the_order_of_arrival_under_each_key() {
    let mut table: Table<Vec<u32>> = Table::new();
    assert_eq!(table.list(&TypeId::of::<u8>()), None);

    table.append(TypeId::of::<u8>(), 30);
    table.append(TypeId::of::<u16>(), 7);
    table.append(TypeId::of::<u8>(), 10);
    table.append(TypeId::of::<u8>(), 20);

    assert_eq!(table.list(&TypeId::of::<u8>()), Some(&vec![30, 10, 20]));
    assert_eq!(table.list(&TypeId::of::<u16>()), Some(&vec![7]));
    assert_eq!(table.list(&TypeId::of::<u32>()), None);
}
