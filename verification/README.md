# vtable_hook

Hooking of C++ virtual tables by cloning a table and swapping the object's vtable
pointer, with the hooking logic proved against its contracts.

- `src/` is the verified library. It sees every address (of a table, of a method, of
  the object's vtable pointer field) as a plain `usize` word:
  - `vtable.rs`: snapshots of tables, counting of null-terminated tables;
  - `model.rs`: `HookState`, the state of a hook as plain values, and what each
    operation does to it;
  - `raw_hook.rs`, `typed_hook.rs`: `RawHook` and `Hook`, whose contracts are stated
    over `HookState`;
  - `hook/copy/`: the copy-based hook, whose slot operations answer `None` for an index
    out of range;
  - `laws.rs`: what holds across operations (enable/disable round trips, restoring
    undoes replacing, reset undoes hook, ...).
- `app/` does the memory work around it: reading the object's field and the tables,
  installing the patched copy in memory, writing the field, and disabling a `Hook` when
  it is dropped.
