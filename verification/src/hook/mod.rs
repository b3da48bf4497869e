//! Vtable hook strategies, one module each. `copy` clones the vtable and swaps the
//! object's vtable pointer.

pub mod copy;
