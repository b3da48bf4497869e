//! Copy-based vtable hooking: clone the target vtable, patch the clone, then point the
//! object's vtable pointer at the patched copy.
//!
//! The `raw` submodule holds the core [`raw::RawHook`]; this module ties it to a borrowed
//! object in [`Hook`].

pub mod raw;

use vstd::prelude::*;
use crate::model::HookState;
use crate::typed_hook::{object_vtable, table_entries, table_words_suffice};

verus! {

/// A copy-based vtable hook tied to an object borrowed for its lifetime. Its methods
/// delegate to the inner [`raw::RawHook`].
#[derive(Debug)]
pub struct Hook<'a, T> {
    pub item: &'a mut T,
    raw: raw::RawHook,
}

impl<'a, T> View for Hook<'a, T> {
    type V = HookState;

    closed spec fn view(&self) -> HookState {
        self.raw@
    }
}

impl<'a, T> Hook<'a, T> {
    /// The hook's state is consistent.
    pub open spec fn wf(&self) -> bool {
        self@.wf()
    }

    /// The hooked object.
    pub closed spec fn spec_item(&self) -> &'a mut T {
        self.item
    }

    /// A hook on `item`, whose vtable pointer field holds `vtable_field`. The table has
    /// `methods_count` entries when that is given, and is null-terminated otherwise;
    /// `words` holds what was read from it. The patched copy is installed at
    /// `patched_begin`.
    pub fn new(
        item: &'a mut T,
        vtable_field: usize,
        methods_count: Option<usize>,
        words: &[usize],
        patched_begin: usize,
    ) -> (hook: Self)
        requires
            table_words_suffice(methods_count, words@),
            patched_begin != vtable_field,
        ensures
            hook.wf(),
            !hook@.is_enabled(),
            *hook.spec_item() == *old(item),
            *final(hook.spec_item()) == *final(item),
            hook@ == HookState::fresh(
                vtable_field,
                vtable_field,
                table_entries(methods_count, words@),
                patched_begin,
            ),
    {
        let original_vtable = object_vtable(vtable_field, methods_count, words);
        let raw = raw::RawHook::new(vtable_field, Some(original_vtable), words, patched_begin);
        Hook { item, raw }
    }

    /// The inner hook.
    pub fn raw(&self) -> (raw: &raw::RawHook)
        ensures
            raw@ == self@,
    {
        &self.raw
    }

    /// Records the value now held by the object's vtable pointer field.
    pub fn set_vtable_field(&mut self, value: usize)
        requires
            old(self).wf(),
        ensures
            final(self).wf(),
            final(self)@ == (HookState { vtable_field: value, ..old(self)@ }),
    {
        self.raw.set_vtable_field(value);
    }

    /// The object dispatches through the patched copy.
    pub fn is_enabled(&self) -> (enabled: bool)
        ensures
            enabled == self@.is_enabled(),
    {
        self.raw.is_enabled()
    }

    /// Points the object at the patched copy; `false` when it already was.
    pub fn enable(&mut self) -> (changed: bool)
        requires
            old(self).wf(),
        ensures
            final(self).wf(),
            final(self)@ == old(self)@.enable(),
            changed == !old(self)@.is_enabled(),
    {
        self.raw.enable()
    }

    /// Points the object back at the original table; `false` when it did not point at
    /// the patched copy.
    pub fn disable(&mut self) -> (changed: bool)
        requires
            old(self).wf(),
        ensures
            final(self).wf(),
            final(self)@ == old(self)@.disable(),
            changed == old(self)@.is_enabled(),
    {
        self.raw.disable()
    }

    /// The original method at `index`.
    pub fn original(&self, index: usize) -> (method: usize)
        requires
            index < self@.original.len(),
        ensures
            method == self@.original[index as int],
    {
        self.raw.as_raw().original(index)
    }

    /// Replaces the method at `index` and enables the hook.
    pub fn hook(&mut self, index: usize, hook_fn: usize)
        requires
            old(self).wf(),
            index < old(self)@.original.len(),
        ensures
            final(self).wf(),
            final(self)@ == old(self)@.hook(index as int, hook_fn),
    {
        self.replace_method(index, hook_fn);
        self.enable();
    }

    /// Restores the original method at `index`.
    pub fn unhook(&mut self, index: usize)
        requires
            old(self).wf(),
            index < old(self)@.original.len(),
        ensures
            final(self).wf(),
            final(self)@ == old(self)@.restore_method(index as int),
    {
        self.restore_method(index);
    }

    /// Restores every original method and disables the hook.
    pub fn reset(&mut self)
        requires
            old(self).wf(),
        ensures
            final(self).wf(),
            final(self)@ == old(self)@.reset(),
    {
        self.restore_all();
        self.disable();
    }

    /// Puts `hook_fn` in slot `index` of the patched copy.
    pub fn replace_method(&mut self, index: usize, hook_fn: usize)
        requires
            old(self).wf(),
            index < old(self)@.patched.len(),
        ensures
            final(self).wf(),
            final(self)@ == old(self)@.replace_method(index as int, hook_fn),
    {
        self.raw.replace_method(index, hook_fn);
    }

    /// Puts the original method back in slot `index` of the patched copy.
    pub fn restore_method(&mut self, index: usize)
        requires
            old(self).wf(),
            index < old(self)@.original.len(),
        ensures
            final(self).wf(),
            final(self)@ == old(self)@.restore_method(index as int),
    {
        self.raw.restore_method(index);
    }

    /// Puts every original method back in the patched copy.
    pub fn restore_all(&mut self)
        requires
            old(self).wf(),
        ensures
            final(self).wf(),
            final(self)@ == old(self)@.restore_all(),
    {
        self.raw.restore_all()
    }

    /// Takes the original table's entries anew from `words`, read again from its start,
    /// for a table that changed since it was read.
    pub fn refresh_original(&mut self, words: &[usize])
        requires
            old(self).wf(),
            words@.len() == old(self)@.original.len(),
        ensures
            final(self).wf(),
            final(self)@ == (HookState { original: words@, ..old(self)@ }),
    {
        self.raw.refresh_original(words);
    }
}

} // verus!
