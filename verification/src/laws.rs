use vstd::prelude::*;
use crate::model::HookState;
use crate::typed_hook::{table_entries, table_words_suffice};
use crate::vtable::{has_null, is_table_end, lemma_table_end_unique, null_terminated_entries};

verus! {

/// A fresh hook is consistent, its patched copy equals the original table, and it is
/// disabled: the object does not point at the patched copy, which is newly made.
pub proof fn lemma_fresh(
    vtable_field: usize,
    original_begin: usize,
    original: Seq<usize>,
    patched_begin: usize,
)
    requires
        patched_begin != original_begin,
        patched_begin != vtable_field,
    ensures
        HookState::fresh(vtable_field, original_begin, original, patched_begin).wf(),
        HookState::fresh(vtable_field, original_begin, original, patched_begin).patched
            == original,
        !HookState::fresh(
            vtable_field,
            original_begin,
            original,
            patched_begin,
        ).is_enabled(),
{
}

/// Every operation keeps a hook consistent, and none of them touches the original
/// table or the place of the patched copy.
pub proof fn lemma_operations_keep_wf(s: HookState, index: int, method: usize)
    requires
        s.wf(),
        0 <= index < s.original.len(),
    ensures
        s.enable().wf(),
        s.disable().wf(),
        s.replace_method(index, method).wf(),
        s.restore_method(index).wf(),
        s.restore_all().wf(),
        s.hook(index, method).wf(),
        s.reset().wf(),
        s.enable().original == s.original && s.enable().original_begin == s.original_begin,
        s.disable().original == s.original && s.disable().original_begin == s.original_begin,
        s.replace_method(index, method).original == s.original,
        s.restore_method(index).original == s.original,
        s.restore_all().original == s.original,
        s.hook(index, method).original == s.original,
        s.reset().original == s.original,
        s.reset().original_begin == s.original_begin,
        s.hook(index, method).patched_begin == s.patched_begin,
        s.reset().patched_begin == s.patched_begin,
{
}

/// After `enable` the object dispatches through the patched copy; after `disable` it
/// does not, and its field holds the original table's address unless something else
/// had been put there.
pub proof fn lemma_enable_disable_effect(s: HookState)
    requires
        s.wf(),
    ensures
        s.enable().is_enabled(),
        !s.disable().is_enabled(),
        s.is_enabled() ==> s.disable().vtable_field == s.original_begin,
        !s.is_enabled() ==> s.disable() == s,
{
}

/// Enabling or disabling twice is the same as doing it once.
pub proof fn lemma_enable_disable_idempotent(s: HookState)
    requires
        s.wf(),
    ensures
        s.enable().enable() == s.enable(),
        s.disable().disable() == s.disable(),
{
}

/// Switching the hook on or off leaves both tables as they were.
pub proof fn lemma_switching_keeps_tables(s: HookState)
    ensures
        s.enable().patched == s.patched,
        s.disable().patched == s.patched,
        s.enable().original == s.original,
        s.disable().original == s.original,
{
}

/// Enabling a disabled hook and disabling it again points the object back at the
/// original table, all else unchanged: the state it started in, when the object pointed
/// at the original table.
pub proof fn lemma_enable_then_disable(s: HookState)
    requires
        s.wf(),
        !s.is_enabled(),
    ensures
        s.enable().disable() == (HookState { vtable_field: s.original_begin, ..s }),
        s.vtable_field == s.original_begin ==> s.enable().disable() == s,
{
}

/// Disabling an enabled hook and enabling it again gives back the same state.
pub proof fn lemma_disable_then_enable(s: HookState)
    requires
        s.wf(),
        s.is_enabled(),
    ensures
        s.disable().enable() == s,
{
}

/// Replacing a slot changes that slot alone, and not whether the hook is enabled.
pub proof fn lemma_replace_method_frame(s: HookState, index: int, method: usize)
    requires
        s.wf(),
        0 <= index < s.patched.len(),
    ensures
        s.replace_method(index, method).patched[index] == method,
        forall|j: int|
            0 <= j < s.patched.len() && j != index ==> #[trigger] s.replace_method(
                index,
                method,
            ).patched[j] == s.patched[j],
        s.replace_method(index, method).vtable_field == s.vtable_field,
        s.replace_method(index, method).is_enabled() == s.is_enabled(),
{
}

/// Restoring a slot undoes any replacement of it: the slot holds the original method
/// again, and a slot that held it before the replacement is back where it started.
pub proof fn lemma_restore_undoes_replace(s: HookState, index: int, method: usize)
    requires
        s.wf(),
        0 <= index < s.original.len(),
    ensures
        s.replace_method(index, method).restore_method(index) == s.restore_method(index),
        s.restore_method(index).patched[index] == s.original[index],
        s.patched[index] == s.original[index] ==> s.replace_method(index, method).restore_method(
            index,
        ) == s,
{
    assert(s.replace_method(index, method).restore_method(index).patched =~= s.restore_method(
        index,
    ).patched);
    if s.patched[index] == s.original[index] {
        assert(s.restore_method(index).patched =~= s.patched);
    }
}

/// Restoring every slot makes the patched copy equal to the original table.
pub proof fn lemma_restore_all_is_original(s: HookState)
    requires
        s.wf(),
    ensures
        s.restore_all().patched == s.original,
        s.restore_all().vtable_field == s.vtable_field,
{
    assert(s.restore_all().patched =~= s.original);
}

/// After `hook` the object dispatches through the patched copy, whose slot `index`
/// holds the new method.
pub proof fn lemma_hook_effect(s: HookState, index: int, method: usize)
    requires
        s.wf(),
        0 <= index < s.original.len(),
    ensures
        s.hook(index, method).is_enabled(),
        s.hook(index, method).patched == s.patched.update(index, method),
{
}

/// After `reset` the patched copy equals the original table and the object does not
/// dispatch through it.
pub proof fn lemma_reset_effect(s: HookState)
    requires
        s.wf(),
    ensures
        s.reset().patched == s.original,
        !s.reset().is_enabled(),
{
    lemma_restore_all_is_original(s);
}

/// Hooking a fresh hook and resetting it gives back the fresh hook.
pub proof fn lemma_reset_undoes_hook(
    vtable_field: usize,
    original_begin: usize,
    original: Seq<usize>,
    patched_begin: usize,
    index: int,
    method: usize,
)
    requires
        patched_begin != original_begin,
        vtable_field == original_begin,
        0 <= index < original.len(),
    ensures
        ({
            let s = HookState::fresh(vtable_field, original_begin, original, patched_begin);
            s.hook(index, method).reset() == s
        }),
{
    let s = HookState::fresh(vtable_field, original_begin, original, patched_begin);
    let h = s.hook(index, method);
    lemma_restore_all_is_original(h);
    assert(h.reset().patched =~= s.patched);
}

/// A new hook records the given field value and addresses unchanged, and its patched
/// copy holds exactly the original entries.
pub proof fn lemma_fresh_records_inputs(
    vtable_field: usize,
    original_begin: usize,
    original: Seq<usize>,
    patched_begin: usize,
)
    ensures
        ({
            let s = HookState::fresh(vtable_field, original_begin, original, patched_begin);
            &&& s.vtable_field == vtable_field
            &&& s.original_begin == original_begin
            &&& s.original == original
            &&& s.patched_begin == patched_begin
            &&& s.patched.len() == original.len()
            &&& forall|i: int| 0 <= i < original.len() ==> #[trigger] s.patched[i] == original[i]
        }),
{
}

/// A hook is enabled exactly when the object's field holds the patched copy's address,
/// and consistent exactly when the copy has one slot per original entry and lives at
/// another address than the original table.
pub proof fn lemma_enabled_and_wf_meaning(s: HookState)
    ensures
        s.is_enabled() <==> s.vtable_field == s.patched_begin,
        s.wf() <==> s.patched.len() == s.original.len() && s.patched_begin != s.original_begin,
{
}

/// `enable` writes the patched copy's address into the field and touches nothing else.
pub proof fn lemma_enable_fields(s: HookState)
    ensures
        s.enable().vtable_field == s.patched_begin,
        s.enable().original_begin == s.original_begin,
        s.enable().original == s.original,
        s.enable().patched_begin == s.patched_begin,
        s.enable().patched == s.patched,
{
}

/// `disable` writes the original table's address into the field when the object points
/// at the patched copy, leaves the field alone otherwise, and touches nothing else.
pub proof fn lemma_disable_fields(s: HookState)
    ensures
        s.vtable_field == s.patched_begin ==> s.disable().vtable_field == s.original_begin,
        s.vtable_field != s.patched_begin ==> s.disable().vtable_field == s.vtable_field,
        s.disable().original_begin == s.original_begin,
        s.disable().original == s.original,
        s.disable().patched_begin == s.patched_begin,
        s.disable().patched == s.patched,
{
}

/// `replace_method` puts the method in its slot, keeps every other slot, and touches
/// nothing else.
pub proof fn lemma_replace_method_fields(s: HookState, index: int, method: usize)
    requires
        0 <= index < s.patched.len(),
    ensures
        s.replace_method(index, method).patched.len() == s.patched.len(),
        s.replace_method(index, method).patched[index] == method,
        forall|j: int|
            0 <= j < s.patched.len() && j != index ==> #[trigger] s.replace_method(
                index,
                method,
            ).patched[j] == s.patched[j],
        s.replace_method(index, method).vtable_field == s.vtable_field,
        s.replace_method(index, method).original_begin == s.original_begin,
        s.replace_method(index, method).original == s.original,
        s.replace_method(index, method).patched_begin == s.patched_begin,
{
}

/// `restore_method` puts the original method back in its slot, keeps every other slot,
/// and touches nothing else.
pub proof fn lemma_restore_method_fields(s: HookState, index: int)
    requires
        s.wf(),
        0 <= index < s.original.len(),
    ensures
        s.restore_method(index).patched.len() == s.patched.len(),
        s.restore_method(index).patched[index] == s.original[index],
        forall|j: int|
            0 <= j < s.patched.len() && j != index ==> #[trigger] s.restore_method(index).patched[j]
                == s.patched[j],
        s.restore_method(index).vtable_field == s.vtable_field,
        s.restore_method(index).original_begin == s.original_begin,
        s.restore_method(index).original == s.original,
        s.restore_method(index).patched_begin == s.patched_begin,
{
}

/// `restore_all` makes every slot of the patched copy hold its original method, and
/// touches nothing else.
pub proof fn lemma_restore_all_fields(s: HookState)
    requires
        s.wf(),
    ensures
        s.restore_all().patched.len() == s.original.len(),
        forall|i: int| 0 <= i < s.original.len() ==> #[trigger] s.restore_all().patched[i]
            == s.original[i],
        s.restore_all().vtable_field == s.vtable_field,
        s.restore_all().original_begin == s.original_begin,
        s.restore_all().original == s.original,
        s.restore_all().patched_begin == s.patched_begin,
{
}

/// `hook` puts the method in its slot, keeps every other slot, and leaves the object
/// pointing at the patched copy.
pub proof fn lemma_hook_fields(s: HookState, index: int, method: usize)
    requires
        s.wf(),
        0 <= index < s.original.len(),
    ensures
        s.hook(index, method).vtable_field == s.patched_begin,
        s.hook(index, method).patched.len() == s.patched.len(),
        s.hook(index, method).patched[index] == method,
        forall|j: int|
            0 <= j < s.patched.len() && j != index ==> #[trigger] s.hook(index, method).patched[j]
                == s.patched[j],
        s.hook(index, method).original_begin == s.original_begin,
        s.hook(index, method).original == s.original,
        s.hook(index, method).patched_begin == s.patched_begin,
{
}

/// `reset` makes every slot of the patched copy hold its original method and, whatever
/// was hooked before, writes the original table's address into the field when the
/// object pointed at the patched copy, and leaves the field alone otherwise.
pub proof fn lemma_reset_fields(s: HookState)
    requires
        s.wf(),
    ensures
        s.reset().patched.len() == s.original.len(),
        forall|i: int| 0 <= i < s.original.len() ==> #[trigger] s.reset().patched[i]
            == s.original[i],
        s.vtable_field == s.patched_begin ==> s.reset().vtable_field == s.original_begin,
        s.vtable_field != s.patched_begin ==> s.reset().vtable_field == s.vtable_field,
        s.reset().original_begin == s.original_begin,
        s.reset().original == s.original,
        s.reset().patched_begin == s.patched_begin,
{
}

/// The entries of a null-terminated table are the words before the first null word:
/// none of them is null, and the word right after them is.
pub proof fn lemma_null_terminated_entries(words: Seq<usize>)
    requires
        has_null(words),
    ensures
        null_terminated_entries(words).len() < words.len(),
        words[null_terminated_entries(words).len() as int] == 0,
        forall|i: int|
            0 <= i < null_terminated_entries(words).len() ==> #[trigger] null_terminated_entries(
                words,
            )[i] == words[i] && words[i] != 0,
{
    let w = choose|i: int| 0 <= i < words.len() && words[i] == 0;
    let n = first_null(words, w);
    assert(is_table_end(words, n));
    let m = choose|m: int| is_table_end(words, m);
    lemma_table_end_unique(words, m, n);
}

/// The position of the first null word of `words`, found by searching below `w`, itself
/// a null word.
proof fn first_null(words: Seq<usize>, w: int) -> (n: int)
    requires
        0 <= w < words.len(),
        words[w] == 0,
    ensures
        is_table_end(words, n),
    decreases w,
{
    if exists|i: int| 0 <= i < w && words[i] == 0 {
        let v = choose|i: int| 0 <= i < w && words[i] == 0;
        first_null(words, v)
    } else {
        w
    }
}

/// The table of an object is the first `n` words read when its count `n` is known, and
/// the words before the sentinel otherwise; every entry is a word read, unchanged.
pub proof fn lemma_table_entries(methods_count: Option<usize>, words: Seq<usize>)
    requires
        table_words_suffice(methods_count, words),
    ensures
        methods_count matches Some(n) ==> table_entries(methods_count, words).len() == n,
        methods_count is None ==> table_entries(methods_count, words).len() < words.len()
            && words[table_entries(methods_count, words).len() as int] == 0,
        forall|i: int|
            0 <= i < table_entries(methods_count, words).len() ==> #[trigger] table_entries(
                methods_count,
                words,
            )[i] == words[i],
        methods_count is None ==> forall|i: int|
            0 <= i < table_entries(methods_count, words).len() ==> #[trigger] words[i] != 0,
{
    if methods_count is None {
        lemma_null_terminated_entries(words);
        let e = null_terminated_entries(words);
        assert forall|i: int| 0 <= i < e.len() implies #[trigger] words[i] != 0 by {
            assert(e[i] == words[i]);
        }
    }
}

} // verus!
