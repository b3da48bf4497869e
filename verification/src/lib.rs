//! Hooking of C++ virtual tables, modelled over plain machine words.
//!
//! Two hook types:
//! - [`Hook`]: tied to a borrowed object.
//! - [`RawHook`]: works on the value of an object's vtable pointer field alone.
//!
//! Addresses (of tables, of methods) are plain `usize` words; the state of a hook is
//! described by [`model::HookState`], and [`laws`] proves what holds across operations.

pub mod laws;
pub mod model;
pub mod raw_hook;
pub mod typed_hook;
pub mod vtable;

pub use raw_hook::RawHook;
pub use typed_hook::Hook;
pub use vtable::VTable;
pub mod hook;
