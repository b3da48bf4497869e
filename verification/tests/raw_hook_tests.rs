use vtable_hook::{RawHook, VTable};

const ORIGINAL: usize = 0x1000;
const PATCHED: usize = 0x9000;

fn fresh() -> RawHook {
    RawHook::new(ORIGINAL, None, &[0xa1, 0xa2, 0xa3, 0], PATCHED)
}

#[test]
fn new_clones_the_original_table() {
    let hook = fresh();
    assert_eq!(hook.original_vtable().as_slice(), &[0xa1, 0xa2, 0xa3]);
    assert_eq!(hook.patched_vtable(), &[0xa1, 0xa2, 0xa3]);
    assert_eq!(hook.vtable_field(), ORIGINAL);
    assert_eq!(hook.patched_begin(), PATCHED);
    assert!(!hook.is_enabled());
}

#[test]
fn new_with_given_table() {
    let table = VTable::new_with_size(0x3000, 2, &[0xb1, 0xb2]);
    let hook = RawHook::new(ORIGINAL, Some(table), &[], PATCHED);
    assert_eq!(hook.original_vtable().begin(), 0x3000);
    assert_eq!(hook.patched_vtable(), &[0xb1, 0xb2]);
    assert_eq!(hook.vtable_field(), ORIGINAL);
}

#[test]
fn enable_points_at_patched_copy() {
    let mut hook = fresh();
    assert!(hook.enable());
    assert!(hook.is_enabled());
    assert_eq!(hook.vtable_field(), PATCHED);
    assert!(!hook.enable());
    assert_eq!(hook.vtable_field(), PATCHED);
}

#[test]
fn disable_points_back_at_original() {
    let mut hook = fresh();
    assert!(!hook.disable());
    assert_eq!(hook.vtable_field(), ORIGINAL);
    hook.enable();
    assert!(hook.disable());
    assert!(!hook.is_enabled());
    assert_eq!(hook.vtable_field(), ORIGINAL);
    assert!(!hook.disable());
}

#[test]
fn disable_leaves_a_foreign_pointer_alone() {
    let mut hook = fresh();
    hook.set_vtable_field(0x7777);
    assert!(!hook.is_enabled());
    assert!(!hook.disable());
    assert_eq!(hook.vtable_field(), 0x7777);
    assert!(hook.enable());
    assert!(hook.disable());
    assert_eq!(hook.vtable_field(), ORIGINAL);
}

#[test]
fn original_returns_original_entries() {
    let mut hook = fresh();
    hook.hook(1, 0xbeef);
    assert_eq!(hook.original(0), 0xa1);
    assert_eq!(hook.original(1), 0xa2);
    assert_eq!(hook.original(2), 0xa3);
}

#[test]
fn hook_replaces_and_enables() {
    let mut hook = fresh();
    hook.hook(1, 0xbeef);
    assert_eq!(hook.patched_vtable(), &[0xa1, 0xbeef, 0xa3]);
    assert!(hook.is_enabled());
    assert_eq!(hook.original_vtable().as_slice(), &[0xa1, 0xa2, 0xa3]);
}

#[test]
fn replace_method_does_not_enable() {
    let mut hook = fresh();
    hook.replace_method(2, 0xcafe);
    assert_eq!(hook.patched_vtable(), &[0xa1, 0xa2, 0xcafe]);
    assert!(!hook.is_enabled());
}

#[test]
fn unhook_and_restore_method_undo_a_replacement() {
    let mut hook = fresh();
    hook.hook(0, 0x1);
    hook.replace_method(2, 0x3);
    hook.unhook(0);
    assert_eq!(hook.patched_vtable(), &[0xa1, 0xa2, 0x3]);
    hook.restore_method(2);
    assert_eq!(hook.patched_vtable(), &[0xa1, 0xa2, 0xa3]);
    assert!(hook.is_enabled());
}

#[test]
fn restore_all_restores_every_slot() {
    let mut hook = fresh();
    hook.replace_method(0, 0x1);
    hook.replace_method(1, 0x2);
    hook.replace_method(2, 0x3);
    hook.enable();
    hook.restore_all();
    assert_eq!(hook.patched_vtable(), &[0xa1, 0xa2, 0xa3]);
    assert!(hook.is_enabled());
}

#[test]
fn reset_restores_and_disables() {
    let mut hook = fresh();
    hook.hook(2, 0xdead);
    hook.reset();
    assert_eq!(hook.patched_vtable(), &[0xa1, 0xa2, 0xa3]);
    assert!(!hook.is_enabled());
    assert_eq!(hook.vtable_field(), ORIGINAL);
}

#[test]
fn enable_then_disable_gives_back_fresh_state() {
    let mut hook = fresh();
    hook.enable();
    hook.disable();
    assert_eq!(hook.vtable_field(), ORIGINAL);
    assert_eq!(hook.patched_vtable(), &[0xa1, 0xa2, 0xa3]);
}

#[test]
fn disable_then_enable_gives_back_enabled_state() {
    let mut hook = fresh();
    hook.hook(0, 0x5);
    hook.disable();
    hook.enable();
    assert!(hook.is_enabled());
    assert_eq!(hook.patched_vtable(), &[0x5, 0xa2, 0xa3]);
}

#[test]
fn empty_table_hook() {
    let mut hook = RawHook::new(ORIGINAL, None, &[0], PATCHED);
    assert!(hook.patched_vtable().is_empty());
    assert!(hook.enable());
    hook.reset();
    assert!(!hook.is_enabled());
}

#[test]
fn new_with_given_table_is_disabled() {
    let table = VTable::new_with_size(0x3000, 1, &[0xb1]);
    let hook = RawHook::new(0x3000, Some(table), &[], PATCHED);
    assert!(!hook.is_enabled());
}

#[test]
fn refresh_original_takes_new_entries() {
    let mut hook = fresh();
    hook.replace_method(0, 0x1);
    hook.refresh_original(&[0xc1, 0xc2, 0xc3]);
    assert_eq!(hook.original(0), 0xc1);
    assert_eq!(hook.original_vtable().begin(), ORIGINAL);
    assert_eq!(hook.patched_vtable(), &[0x1, 0xa2, 0xa3]);
    hook.restore_all();
    assert_eq!(hook.patched_vtable(), &[0xc1, 0xc2, 0xc3]);
}
