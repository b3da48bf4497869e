use vstd::prelude::*;
use crate::model::HookState;
use crate::vtable::{has_null, null_terminated_entries, VTable};

verus! {

/// The copy-based raw hook, whose slot operations report an index out of range with
/// `None` instead of requiring it in range.
#[derive(Debug)]
pub struct RawHook {
    inner: crate::raw_hook::RawHook,
}

impl View for RawHook {
    type V = HookState;

    closed spec fn view(&self) -> HookState {
        self.inner@
    }
}

impl RawHook {
    /// The hook's state is consistent.
    pub open spec fn wf(&self) -> bool {
        self@.wf()
    }

    /// A hook on an object whose vtable pointer field holds `vtable_field`. The original
    /// table is `original_vtable` when given; otherwise it is the null-terminated table
    /// at `vtable_field`, whose words through the sentinel are `words`. The patched copy
    /// is installed at `patched_begin`.
    pub fn new(
        vtable_field: usize,
        original_vtable: Option<VTable>,
        words: &[usize],
        patched_begin: usize,
    ) -> (hook: RawHook)
        requires
            patched_begin != vtable_field,
            original_vtable is None ==> has_null(words@),
            original_vtable matches Some(t) ==> patched_begin != t.spec_begin(),
        ensures
            hook.wf(),
            !hook@.is_enabled(),
            original_vtable matches Some(t) ==> hook@ == HookState::fresh(
                vtable_field,
                t.spec_begin(),
                t.spec_methods(),
                patched_begin,
            ),
            original_vtable is None ==> hook@ == HookState::fresh(
                vtable_field,
                vtable_field,
                null_terminated_entries(words@),
                patched_begin,
            ),
    {
        RawHook {
            inner: crate::raw_hook::RawHook::new(
                vtable_field,
                original_vtable,
                words,
                patched_begin,
            ),
        }
    }

    /// The hook seen as a [`crate::RawHook`].
    pub fn as_raw(&self) -> (raw: &crate::raw_hook::RawHook)
        ensures
            raw@ == self@,
    {
        &self.inner
    }

    /// Records the value now held by the object's vtable pointer field.
    pub fn set_vtable_field(&mut self, value: usize)
        requires
            old(self).wf(),
        ensures
            final(self).wf(),
            final(self)@ == (HookState { vtable_field: value, ..old(self)@ }),
    {
        self.inner.set_vtable_field(value);
    }

    /// The object dispatches through the patched copy.
    pub fn is_enabled(&self) -> (enabled: bool)
        ensures
            enabled == self@.is_enabled(),
    {
        self.inner.is_enabled()
    }

    /// Points the object at the patched copy; `false` when it already was.
    pub fn enable(&mut self) -> (changed: bool)
        requires
            old(self).wf(),
        ensures
            final(self).wf(),
            final(self)@ == old(self)@.enable(),
            changed == !old(self)@.is_enabled(),
    {
        self.inner.enable()
    }

    /// Points the object back at the original table; `false` when it did not point at
    /// the patched copy.
    pub fn disable(&mut self) -> (changed: bool)
        requires
            old(self).wf(),
        ensures
            final(self).wf(),
            final(self)@ == old(self)@.disable(),
            changed == old(self)@.is_enabled(),
    {
        self.inner.disable()
    }

    /// Puts `our_method` in slot `index` of the patched copy; `None`, and nothing
    /// changed, when the copy has no such slot.
    pub fn replace_method(&mut self, index: usize, our_method: usize) -> (done: Option<()>)
        requires
            old(self).wf(),
        ensures
            final(self).wf(),
            done is Some <==> index < old(self)@.patched.len(),
            done is Some ==> final(self)@ == old(self)@.replace_method(index as int, our_method),
            done is None ==> final(self)@ == old(self)@,
    {
        if index < self.inner.patched_vtable().len() {
            self.inner.replace_method(index, our_method);
            Some(())
        } else {
            None
        }
    }

    /// Puts the original method back in slot `index` of the patched copy; `None`, and
    /// nothing changed, when either table has no such slot.
    pub fn restore_method(&mut self, index: usize) -> (done: Option<()>)
        requires
            old(self).wf(),
        ensures
            final(self).wf(),
            done is Some <==> index < old(self)@.patched.len() && index
                < old(self)@.original.len(),
            done is Some ==> final(self)@ == old(self)@.restore_method(index as int),
            done is None ==> final(self)@ == old(self)@,
    {
        if index < self.inner.patched_vtable().len() && index
            < self.inner.original_vtable().size() {
            self.inner.restore_method(index);
            Some(())
        } else {
            None
        }
    }

    /// Puts every original method back in the patched copy.
    pub fn restore_all(&mut self)
        requires
            old(self).wf(),
        ensures
            final(self).wf(),
            final(self)@ == old(self)@.restore_all(),
    {
        self.inner.restore_all()
    }

    /// Takes the original table's entries anew from `words`, read again from its start,
    /// for a table that changed since it was read.
    pub fn refresh_original(&mut self, words: &[usize])
        requires
            old(self).wf(),
            words@.len() == old(self)@.original.len(),
        ensures
            final(self).wf(),
            final(self)@ == (HookState { original: words@, ..old(self)@ }),
    {
        self.inner.refresh_original(words);
    }
}

} // verus!
