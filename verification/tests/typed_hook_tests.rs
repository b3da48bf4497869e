use vtable_hook::Hook;

const FIELD: usize = 0x1000;
const PATCHED: usize = 0x9000;

#[derive(Debug, PartialEq)]
struct Object {
    value: i32,
}

#[test]
fn hook_with_known_count() {
    let mut object = Object { value: 42 };
    let mut hook = Hook::new(&mut object, FIELD, Some(2), &[0xf1, 0xf2], PATCHED);
    assert_eq!(hook.raw().patched_vtable(), &[0xf1, 0xf2]);
    assert!(!hook.is_enabled());
    hook.hook(1, 0xbad);
    assert!(hook.is_enabled());
    assert_eq!(hook.raw().patched_vtable(), &[0xf1, 0xbad]);
    assert_eq!(hook.original(1), 0xf2);
    assert_eq!(hook.item.value, 42);
}

#[test]
fn hook_with_null_terminated_table() {
    let mut object = Object { value: 1 };
    let hook = Hook::new(&mut object, FIELD, None, &[0xf1, 0xf2, 0xf3, 0], PATCHED);
    assert_eq!(hook.raw().original_vtable().size(), 3);
    assert_eq!(hook.raw().original_vtable().begin(), FIELD);
}

#[test]
fn typed_hook_operations() {
    let mut object = Object { value: 7 };
    let mut hook = Hook::new(&mut object, FIELD, Some(3), &[0x1, 0x2, 0x3], PATCHED);
    hook.replace_method(0, 0x10);
    hook.replace_method(2, 0x30);
    assert!(!hook.is_enabled());
    assert!(hook.enable());
    assert!(!hook.enable());
    hook.unhook(0);
    assert_eq!(hook.raw().patched_vtable(), &[0x1, 0x2, 0x30]);
    hook.restore_method(2);
    assert_eq!(hook.raw().patched_vtable(), &[0x1, 0x2, 0x3]);
    hook.replace_method(1, 0x20);
    hook.restore_all();
    assert_eq!(hook.raw().patched_vtable(), &[0x1, 0x2, 0x3]);
    assert!(hook.disable());
    assert!(!hook.disable());
    hook.hook(1, 0x22);
    hook.reset();
    assert!(!hook.is_enabled());
    assert_eq!(hook.raw().vtable_field(), FIELD);
    assert_eq!(hook.raw().patched_vtable(), &[0x1, 0x2, 0x3]);
}

#[test]
fn typed_hook_sees_outside_change_of_field() {
    let mut object = Object { value: 7 };
    let mut hook = Hook::new(&mut object, FIELD, Some(1), &[0x1], PATCHED);
    hook.enable();
    hook.set_vtable_field(0x4444);
    assert!(!hook.is_enabled());
    assert!(!hook.disable());
    assert_eq!(hook.raw().vtable_field(), 0x4444);
}

#[test]
fn hook_keeps_the_object() {
    let mut object = Object { value: 9 };
    let mut hook = Hook::new(&mut object, FIELD, Some(1), &[0x1], PATCHED);
    assert_eq!(*hook.item, Object { value: 9 });
    hook.refresh_original(&[0x5]);
    assert_eq!(hook.original(0), 0x5);
    hook.item.value = 10;
    drop(hook);
    assert_eq!(object.value, 10);
}
