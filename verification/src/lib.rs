//! Marshalling and event-loop bridging substrate for a native editor
//! extension: a tagged dynamic value type, an ABI-shaped growable
//! container with exactly-once ownership transfer, non-owning views,
//! opaque event handles with attached payloads, a cross-thread wake-up
//! primitive with coalescing semantics, a closure registry bridge for
//! the embedded interpreter, and the error-slot glue shared by every
//! call that crosses the boundary.

pub mod array;
pub mod async_handle;
pub mod collection;
pub mod dictionary;
pub mod error;
pub mod handle;
pub mod non_owning;
pub mod nvim_string;
pub mod object;
pub mod registry;
pub mod set_keymap;
pub mod statusline;
pub mod window;
