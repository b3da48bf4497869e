use vstd::prelude::*;
use crate::model::HookState;
use crate::vtable::{copy_prefix, has_null, null_terminated_entries, VTable};

verus! {

/// A vtable hook over plain words: it holds the value of the hooked object's vtable
/// pointer field, a snapshot of the original table and a patched copy of it.
///
/// On construction the original table is cloned. Methods can be replaced in the clone,
/// and `enable` points the object's field at it; `disable` points it back at the
/// original table.
#[derive(Debug)]
pub struct RawHook {
    vtable_field: usize,
    original_vtable: VTable,
    patched_vtable: Vec<usize>,
    patched_begin: usize,
}

impl View for RawHook {
    type V = HookState;

    closed spec fn view(&self) -> HookState {
        HookState {
            vtable_field: self.vtable_field,
            original_begin: self.original_vtable.spec_begin(),
            original: self.original_vtable.spec_methods(),
            patched_begin: self.patched_begin,
            patched: self.patched_vtable@,
        }
    }
}

impl RawHook {
    /// The hook's state is consistent.
    pub open spec fn wf(&self) -> bool {
        self@.wf()
    }

    /// A hook on an object whose vtable pointer field holds `vtable_field`. The original
    /// table is `original_vtable` when given; otherwise it is the null-terminated table
    /// at `vtable_field`, whose words through the sentinel are `words`. The patched copy
    /// is installed at `patched_begin`.
    pub fn new(
        vtable_field: usize,
        original_vtable: Option<VTable>,
        words: &[usize],
        patched_begin: usize,
    ) -> (hook: RawHook)
        requires
            patched_begin != vtable_field,
            original_vtable is None ==> has_null(words@),
            original_vtable matches Some(t) ==> patched_begin != t.spec_begin(),
        ensures
            hook.wf(),
            !hook@.is_enabled(),
            original_vtable matches Some(t) ==> hook@ == HookState::fresh(
                vtable_field,
                t.spec_begin(),
                t.spec_methods(),
                patched_begin,
            ),
            original_vtable is None ==> {
                hook@ == HookState::fresh(
                    vtable_field,
                    vtable_field,
                    null_terminated_entries(words@),
                    patched_begin,
                )
            },
    {
        let original_vtable = match original_vtable {
            Some(t) => t,
            None => VTable::new(vtable_field, words),
        };
        let entries = original_vtable.as_slice();
        let patched_vtable = copy_prefix(entries, entries.len());
        assert(entries@.take(entries@.len() as int) =~= entries@);
        RawHook { vtable_field, original_vtable, patched_vtable, patched_begin }
    }

    /// The object dispatches through the patched copy.
    pub fn is_enabled(&self) -> (enabled: bool)
        ensures
            enabled == self@.is_enabled(),
    {
        self.vtable_field == self.patched_begin
    }

    /// Points the object's field at the patched copy; `false` when it already was.
    pub fn enable(&mut self) -> (changed: bool)
        requires
            old(self).wf(),
        ensures
            final(self).wf(),
            final(self)@ == old(self)@.enable(),
            changed == !old(self)@.is_enabled(),
    {
        if self.is_enabled() {
            return false;
        }
        self.vtable_field = self.patched_begin;
        true
    }

    /// Points the object's field back at the original table; `false` when it did not
    /// point at the patched copy.
    pub fn disable(&mut self) -> (changed: bool)
        requires
            old(self).wf(),
        ensures
            final(self).wf(),
            final(self)@ == old(self)@.disable(),
            changed == old(self)@.is_enabled(),
    {
        if !self.is_enabled() {
            return false;
        }
        self.vtable_field = self.original_vtable.begin();
        true
    }

    /// The original method at `index`.
    pub fn original(&self, index: usize) -> (method: usize)
        requires
            index < self@.original.len(),
        ensures
            method == self@.original[index as int],
    {
        self.original_vtable.method(index)
    }

    /// Replaces the method at `index` and enables the hook.
    pub fn hook(&mut self, index: usize, hook_fn: usize)
        requires
            old(self).wf(),
            index < old(self)@.original.len(),
        ensures
            final(self).wf(),
            final(self)@ == old(self)@.hook(index as int, hook_fn),
    {
        self.replace_method(index, hook_fn);
        self.enable();
    }

    /// Restores the original method at `index`.
    pub fn unhook(&mut self, index: usize)
        requires
            old(self).wf(),
            index < old(self)@.original.len(),
        ensures
            final(self).wf(),
            final(self)@ == old(self)@.restore_method(index as int),
    {
        self.restore_method(index);
    }

    /// Restores every original method and disables the hook.
    pub fn reset(&mut self)
        requires
            old(self).wf(),
        ensures
            final(self).wf(),
            final(self)@ == old(self)@.reset(),
    {
        self.restore_all();
        self.disable();
    }

    /// Puts `hook_fn` in slot `index` of the patched copy.
    pub fn replace_method(&mut self, index: usize, hook_fn: usize)
        requires
            old(self).wf(),
            index < old(self)@.patched.len(),
        ensures
            final(self).wf(),
            final(self)@ == old(self)@.replace_method(index as int, hook_fn),
    {
        self.patched_vtable.set(index, hook_fn);
    }

    /// Puts the original method back in slot `index` of the patched copy.
    pub fn restore_method(&mut self, index: usize)
        requires
            old(self).wf(),
            index < old(self)@.original.len(),
        ensures
            final(self).wf(),
            final(self)@ == old(self)@.restore_method(index as int),
    {
        let method: usize = self.original_vtable.method(index);
        self.patched_vtable.set(index, method);
    }

    /// Puts every original method back in the patched copy.
    pub fn restore_all(&mut self)
        requires
            old(self).wf(),
        ensures
            final(self).wf(),
            final(self)@ == old(self)@.restore_all(),
    {
        let ghost start = self@;
        let mut index: usize = 0;
        while index < self.patched_vtable.len()
            invariant
                index <= self.patched_vtable@.len(),
                self.patched_vtable@.len() == start.patched.len(),
                start.wf(),
                self@.vtable_field == start.vtable_field,
                self@.original_begin == start.original_begin,
                self@.original == start.original,
                self@.patched_begin == start.patched_begin,
                forall|i: int| 0 <= i < index ==> self.patched_vtable@[i] == start.restore_all().patched[i],
                forall|i: int| index <= i < self.patched_vtable@.len() ==> self.patched_vtable@[i] == start.patched[i],
            decreases self.patched_vtable@.len() - index,
        {
            if index < self.original_vtable.size() {
                let method: usize = self.original_vtable.method(index);
                self.patched_vtable.set(index, method);
            }
            index = index + 1;
        }
        assert(self@.patched =~= start.restore_all().patched);
    }

    /// The value of the object's vtable pointer field, as the hook last set or saw it.
    pub fn vtable_field(&self) -> (value: usize)
        ensures
            value == self@.vtable_field,
    {
        self.vtable_field
    }

    /// Records the value now held by the object's vtable pointer field, which code
    /// outside the hook may have changed.
    pub fn set_vtable_field(&mut self, value: usize)
        requires
            old(self).wf(),
        ensures
            final(self).wf(),
            final(self)@ == (HookState { vtable_field: value, ..old(self)@ }),
    {
        self.vtable_field = value;
    }

    /// The entries of the patched copy.
    pub fn patched_vtable(&self) -> (entries: &[usize])
        ensures
            entries@ == self@.patched,
    {
        self.patched_vtable.as_slice()
    }

    /// Address at which the patched copy is installed.
    pub fn patched_begin(&self) -> (begin: usize)
        ensures
            begin == self@.patched_begin,
    {
        self.patched_begin
    }

    /// The original table.
    pub fn original_vtable(&self) -> (table: &VTable)
        ensures
            table.spec_begin() == self@.original_begin,
            table.spec_methods() == self@.original,
    {
        &self.original_vtable
    }

    /// Takes the original table's entries anew from `words`, read again from its start,
    /// for a table that changed since it was read.
    pub fn refresh_original(&mut self, words: &[usize])
        requires
            old(self).wf(),
            words@.len() == old(self)@.original.len(),
        ensures
            final(self).wf(),
            final(self)@ == (HookState { original: words@, ..old(self)@ }),
    {
        self.original_vtable.reload(words);
    }
}

} // verus!
