//! The record that crosses the boundary: a fixed pair of a scalar field and a
//! boundary string field. Field order and sizes are fixed, so both sides of
//! the boundary agree on the layout.
use vstd::prelude::*;

use crate::cstr::cstr_chars;
use crate::cstr::string_in;
use crate::cstr::string_out;
use safer_ffi::char_p::char_p_boxed;

verus! {

/// One item of the container: a numeric identifier and an owned boundary
/// string holding the item's text. The record owns its string exclusively;
/// freeing the record frees the string with it.
pub struct Todo {
    pub id: i32,
    pub note: char_p_boxed,
}

impl View for Todo {
    type V = (i32, Seq<char>);

    open spec fn view(&self) -> (i32, Seq<char>) {
        (self.id, cstr_chars(self.note))
    }
}

impl Clone for Todo {
    /// A deep copy: the identifier is copied and the note is duplicated into
    /// a fresh buffer, so the clone and the original share no storage.
    fn clone(&self) -> (r: Todo)
        ensures
            r@ == self@,
    {
        Todo { id: self.id, note: string_out(&self.note) }
    }
}

impl Todo {
    /// Build a record from host-native values, marshaling the text into an
    /// owned boundary string holding exactly `note`. Text with an interior
    /// null byte cannot live in a boundary string, so it is excluded here;
    /// [`crate::add_todo`] checks and rejects such text before calling in.
    pub fn new(id: i32, note: &str) -> (t: Todo)
        requires
            !note@.contains('\0'),
        ensures
            t@ == (id, note@),
    {
        match string_in(note) {
            Ok(owned) => Todo { id, note: owned },
            Err(_) => vstd::pervasive::unreached(),
        }
    }
}

} // verus!
