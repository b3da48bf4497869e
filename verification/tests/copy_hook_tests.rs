use vtable_hook::hook::copy::raw::RawHook;
use vtable_hook::hook::copy::Hook;
use vtable_hook::VTable;

const FIELD: usize = 0x1000;
const PATCHED: usize = 0x9000;

#[test]
fn checked_replace_method_in_and_out_of_range() {
    let mut hook = RawHook::new(FIELD, None, &[0xa, 0xb, 0], PATCHED);
    assert_eq!(hook.replace_method(1, 0xff), Some(()));
    assert_eq!(hook.as_raw().patched_vtable(), &[0xa, 0xff]);
    assert_eq!(hook.replace_method(2, 0xee), None);
    assert_eq!(hook.as_raw().patched_vtable(), &[0xa, 0xff]);
}

#[test]
fn checked_restore_method_in_and_out_of_range() {
    let table = VTable::new_with_size(FIELD, 2, &[0xa, 0xb]);
    let mut hook = RawHook::new(FIELD, Some(table), &[], PATCHED);
    hook.replace_method(0, 0x1);
    assert_eq!(hook.restore_method(5), None);
    assert_eq!(hook.as_raw().patched_vtable(), &[0x1, 0xb]);
    assert_eq!(hook.restore_method(0), Some(()));
    assert_eq!(hook.as_raw().patched_vtable(), &[0xa, 0xb]);
}

#[test]
fn checked_enable_disable_restore_all() {
    let mut hook = RawHook::new(FIELD, None, &[0xa, 0xb, 0], PATCHED);
    assert!(!hook.is_enabled());
    assert!(hook.enable());
    assert!(hook.is_enabled());
    hook.replace_method(0, 0x1);
    hook.replace_method(1, 0x2);
    hook.restore_all();
    assert_eq!(hook.as_raw().patched_vtable(), &[0xa, 0xb]);
    assert!(hook.disable());
    assert_eq!(hook.as_raw().vtable_field(), FIELD);
}

#[test]
fn copy_hook_operations() {
    let mut object = [0u8; 4];
    let mut hook = Hook::new(&mut object, FIELD, None, &[0xa, 0xb, 0xc, 0], PATCHED);
    assert_eq!(hook.raw().as_raw().patched_vtable(), &[0xa, 0xb, 0xc]);
    hook.hook(2, 0x33);
    assert!(hook.is_enabled());
    assert_eq!(hook.original(2), 0xc);
    hook.unhook(2);
    assert_eq!(hook.raw().as_raw().patched_vtable(), &[0xa, 0xb, 0xc]);
    hook.replace_method(0, 0x11);
    hook.restore_method(0);
    hook.replace_method(1, 0x22);
    hook.restore_all();
    assert_eq!(hook.raw().as_raw().patched_vtable(), &[0xa, 0xb, 0xc]);
    assert!(hook.disable());
    assert!(hook.enable());
    hook.reset();
    assert!(!hook.is_enabled());
    assert_eq!(hook.raw().as_raw().vtable_field(), FIELD);
    hook.set_vtable_field(PATCHED);
    assert!(hook.is_enabled());
    hook.item[0] = 1;
    assert_eq!(hook.item[0], 1);
}

#[test]
fn copy_hooks_refresh_original() {
    let mut raw = RawHook::new(FIELD, None, &[0xa, 0], PATCHED);
    raw.refresh_original(&[0xd]);
    assert_eq!(raw.restore_method(0), Some(()));
    assert_eq!(raw.as_raw().patched_vtable(), &[0xd]);
    let mut object = 3u32;
    let mut hook = Hook::new(&mut object, FIELD, Some(1), &[0xa], PATCHED);
    assert!(!hook.is_enabled());
    hook.refresh_original(&[0xe]);
    assert_eq!(hook.original(0), 0xe);
    assert_eq!(*hook.item, 3);
}
