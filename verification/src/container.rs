//! The top-level container and its boundary call surface: an opaque heap
//! handle is constructed empty, mutated only by appending records, read
//! through bounds-checked accessors, and destroyed by exactly one matching
//! free call.
//!
//! Errors never propagate across the boundary as faults. An out-of-range
//! index is answered with an in-band sentinel (`-1` for the identifier, the
//! empty string for the note), and a rejected text input is answered with a
//! `false` success flag that leaves the container untouched.
use vstd::prelude::*;

use crate::collection::boundary_get;
use crate::collection::boundary_len;
use crate::collection::collection_append;
use crate::collection::collection_model;
use crate::collection::collection_new;
use crate::cstr::contains_interior_nul;
use crate::cstr::cstr_chars;
use crate::cstr::string_in;
use crate::cstr::string_out;
use crate::record::Todo;
use safer_ffi::char_p::char_p_boxed;

verus! {

/// The container: the owning record behind each handle, holding its records
/// in one boundary collection. It owns every child exclusively, so dropping
/// it releases each record's note and the collection's buffer with it.
pub struct App {
    pub todos: safer_ffi::vec::Vec<Todo>,
}

impl Default for App {
    /// A container with no records (length 0).
    fn default() -> (a: App)
        ensures
            collection_model(a.todos) == Seq::<(i32, Seq<char>)>::empty(),
    {
        App { todos: collection_new() }
    }
}

/// The boundary form of a handle: `safer_ffi`'s `repr_c` box, an owned heap
/// allocation handed across the boundary as a bare address. Opaque to the
/// verifier; the container behind it is reached only through
/// [`boxed_app_model`].
#[verifier::external_type_specification]
#[verifier::external_body]
#[verifier::reject_recursive_types(T)]
pub struct ExReprCBox<T>(safer_ffi::boxed::Box_<T>);

/// The records of the container a handle owns, in order, each reduced to its
/// observable value (identifier and note text).
pub uninterp spec fn boxed_app_model(b: safer_ffi::boxed::Box_<App>) -> Seq<(i32, Seq<char>)>;

/// Relies on `safer_ffi::boxed::Box_::new`: it moves the container to a fresh
/// heap allocation and returns the owning handle to it, so the handle's
/// container holds exactly the records the argument held.
#[verifier::external_body]
fn box_app(a: App) -> (handle: safer_ffi::boxed::Box_<App>)
    ensures
        boxed_app_model(handle) == collection_model(a.todos),
{
    safer_ffi::boxed::Box_::new(a)
}

/// Construct a fresh, empty container on the heap and hand its handle to the
/// caller. The handle has exactly one owner at a time; the caller keeps it
/// until it returns it to [`app_free`], the only call that may consume it.
pub fn app_new() -> (handle: safer_ffi::boxed::Box_<App>)
    ensures
        boxed_app_model(handle) == Seq::<(i32, Seq<char>)>::empty(),
{
    box_app(App::default())
}

/// Destroy a container handle. Ownership moves into the call, so the handle
/// is consumed exactly once and cannot be used afterwards; dropping it
/// releases the container and, transitively, every record and note it owns.
/// No other handle is affected: each handle owns its container exclusively
/// and no state is shared between handles.
pub fn app_free(app: safer_ffi::boxed::Box_<App>) {
}

/// Append one record, built from the given identifier and note text, to the
/// end of the container, rebuilding its boundary collection in full (copy on
/// append). Returns `true` exactly when the note was accepted; text with an
/// interior null byte cannot cross the boundary, so it is rejected with
/// `false` and the container is left exactly as it was.
pub fn add_todo(app: &mut App, id: i32, note: &str) -> (ok: bool)
    ensures
        ok == !note@.contains('\0'),
        ok ==> collection_model(final(app).todos) == collection_model(old(app).todos).push(
            (id, note@),
        ),
        !ok ==> *final(app) == *old(app),
{
    if contains_interior_nul(note) {
        return false;
    }
    let todo = Todo::new(id, note);
    let rebuilt = collection_append(&app.todos, todo);
    app.todos = rebuilt;
    true
}

/// The number of records the container holds: the number of successful
/// appends performed on it since construction.
pub fn get_todo_count(app: &App) -> (n: usize)
    ensures
        n == collection_model(app.todos).len(),
{
    boundary_len(&app.todos)
}

/// The identifier of the record at `index`, counting from 0 in append order.
/// An out-of-range index is answered with the sentinel `-1`, never a fault:
/// the boundary has no fault channel, so the error travels in band.
pub fn get_todo_id_at(app: &App, index: usize) -> (id: i32)
    ensures
        index < collection_model(app.todos).len() ==> id == collection_model(app.todos)[
            index as int].0,
        index >= collection_model(app.todos).len() ==> id == -1,
{
    if index < boundary_len(&app.todos) {
        boundary_get(&app.todos, index).id
    } else {
        -1
    }
}

/// The note text of the record at `index`, duplicated into a fresh boundary
/// string that the caller owns and must free separately; the record keeps its
/// own copy. An out-of-range index is answered with the sentinel empty
/// string, never a fault.
pub fn get_todo_note_at(app: &App, index: usize) -> (note: char_p_boxed)
    ensures
        index < collection_model(app.todos).len() ==> cstr_chars(note) == collection_model(
            app.todos,
        )[index as int].1,
        index >= collection_model(app.todos).len() ==> cstr_chars(note) == Seq::<char>::empty(),
{
    if index < boundary_len(&app.todos) {
        let t = boundary_get(&app.todos, index);
        string_out(&t.note)
    } else {
        proof {
            reveal_strlit("");
            assert(""@ =~= Seq::<char>::empty());
        }
        match string_in("") {
            Ok(empty) => empty,
            Err(_) => vstd::pervasive::unreached(),
        }
    }
}

} // verus!
