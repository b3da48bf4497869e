use vtable_hook::VTable;

#[test]
fn count_methods_stops_at_first_null() {
    assert_eq!(VTable::count_methods_raw(&[0x10, 0x20, 0x30, 0, 0x40]), 3);
}

#[test]
fn count_methods_of_empty_table() {
    assert_eq!(VTable::count_methods_raw(&[0]), 0);
}

#[test]
fn new_reads_until_sentinel() {
    let table = VTable::new(0x1000, &[0xa, 0xb, 0, 0xc]);
    assert_eq!(table.begin(), 0x1000);
    assert_eq!(table.size(), 2);
    assert_eq!(table.as_slice(), &[0xa, 0xb]);
}

#[test]
fn new_with_size_takes_prefix() {
    let table = VTable::new_with_size(0x2000, 2, &[0xa, 0, 0xc]);
    assert_eq!(table.begin(), 0x2000);
    assert_eq!(table.size(), 2);
    assert_eq!(table.as_slice(), &[0xa, 0]);
    assert_eq!(table.method(1), 0);
}

#[test]
fn new_with_size_zero() {
    let table = VTable::new_with_size(0x2000, 0, &[]);
    assert_eq!(table.size(), 0);
    assert!(table.as_slice().is_empty());
}
