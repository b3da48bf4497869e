use vstd::prelude::*;

verus! {

/// What a hook is, as plain values: the word held by the hooked object's vtable pointer
/// field, the original table (where it starts and its entries) and the patched copy
/// (where it is installed and its entries).
pub struct HookState {
    pub vtable_field: usize,
    pub original_begin: usize,
    pub original: Seq<usize>,
    pub patched_begin: usize,
    pub patched: Seq<usize>,
}

impl HookState {
    /// The patched copy has one entry per original entry, and lives elsewhere than the
    /// original table.
    pub open spec fn wf(self) -> bool {
        &&& self.patched.len() == self.original.len()
        &&& self.patched_begin != self.original_begin
    }

    /// The state right after construction: the patched copy is a clone of the original.
    pub open spec fn fresh(
        vtable_field: usize,
        original_begin: usize,
        original: Seq<usize>,
        patched_begin: usize,
    ) -> HookState {
        HookState { vtable_field, original_begin, original, patched_begin, patched: original }
    }

    /// The object dispatches through the patched copy.
    pub open spec fn is_enabled(self) -> bool {
        self.vtable_field == self.patched_begin
    }

    /// Point the object at the patched copy, unless it already is.
    pub open spec fn enable(self) -> HookState {
        if self.is_enabled() {
            self
        } else {
            HookState { vtable_field: self.patched_begin, ..self }
        }
    }

    /// Point the object back at the original table, if it dispatches through the copy.
    pub open spec fn disable(self) -> HookState {
        if self.is_enabled() {
            HookState { vtable_field: self.original_begin, ..self }
        } else {
            self
        }
    }

    /// Put `method` in slot `index` of the patched copy.
    pub open spec fn replace_method(self, index: int, method: usize) -> HookState {
        HookState { patched: self.patched.update(index, method), ..self }
    }

    /// Put the original method back in slot `index` of the patched copy.
    pub open spec fn restore_method(self, index: int) -> HookState {
        HookState { patched: self.patched.update(index, self.original[index]), ..self }
    }

    /// Put every original method back in the patched copy: each slot that the original
    /// table also has gets its original entry.
    pub open spec fn restore_all(self) -> HookState {
        HookState {
            patched: Seq::new(
                self.patched.len(),
                |i: int|
                    if i < self.original.len() {
                        self.original[i]
                    } else {
                        self.patched[i]
                    },
            ),
            ..self
        }
    }

    /// Replace slot `index` and enable.
    pub open spec fn hook(self, index: int, method: usize) -> HookState {
        self.replace_method(index, method).enable()
    }

    /// Restore every slot and disable.
    pub open spec fn reset(self) -> HookState {
        self.restore_all().disable()
    }
}

} // verus!
