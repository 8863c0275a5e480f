//! A boundary layer that exposes owned, variable-length values — records and
//! growable collections — to a caller on the other side of a foreign-function
//! interface with no shared garbage collector or runtime.
//!
//! Text crosses the boundary as an owned, null-terminated, UTF-8 buffer
//! (`safer_ffi`'s `char_p_boxed`); sequences cross as a contiguous,
//! length-tracked buffer (`safer_ffi`'s `repr_c` vector); a whole container is
//! handed out as an opaque heap handle that the caller must eventually return
//! to its matching free call, exactly once. Every mutation rebuilds the
//! boundary buffer in full (copy on append), and every read of a string
//! duplicates it, so the caller never receives a reference into the owning
//! side's live memory.
//!
//! Nothing here faults across the boundary: a rejected text input is reported
//! by an error value or a `false` flag, and an out-of-range index by an
//! in-band sentinel (`-1`, the empty string).

mod cstr;
mod record;
mod collection;
mod container;

pub use crate::cstr::MarshalError;
pub use crate::cstr::cstr_chars;
pub use crate::cstr::string_in;
pub use crate::cstr::string_out;
pub use crate::cstr::string_free;
pub use crate::cstr::lemma_string_round_trip;
pub use crate::record::Todo;
pub use crate::collection::collection_model;
pub use crate::collection::todos_view;
pub use crate::collection::collection_new;
pub use crate::collection::collection_append;
pub use crate::collection::lemma_append_keeps_order;
pub use crate::container::App;
pub use crate::container::boxed_app_model;
pub use crate::container::app_new;
pub use crate::container::app_free;
pub use crate::container::add_todo;
pub use crate::container::get_todo_count;
pub use crate::container::get_todo_id_at;
pub use crate::container::get_todo_note_at;
