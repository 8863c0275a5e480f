//! Collection marshaling: between a host-native growable vector of records
//! and the boundary form, `safer_ffi`'s contiguous `{pointer, length,
//! capacity}` buffer (`repr_c` vector).
//!
//! The boundary buffer is never grown in place. Every append copies the prior
//! elements out into a host vector, pushes the new element, and rebuilds the
//! buffer wholesale; the old storage is discarded. This keeps the far side's
//! view of the buffer simple — it can never alias storage that the owning
//! side is still growing — at the cost of an O(n) copy per append.
use vstd::prelude::*;

use crate::record::Todo;

verus! {

/// The boundary form of a sequence: `safer_ffi`'s `repr_c` vector, a
/// contiguous owned buffer with an explicit length. Opaque to the verifier;
/// its elements are reached only through [`collection_model`].
#[verifier::external_type_specification]
#[verifier::external_body]
#[verifier::reject_recursive_types(T)]
pub struct ExReprCVec<T>(safer_ffi::vec::Vec<T>);

/// The records a boundary collection holds, in buffer order, each reduced to
/// its observable value (identifier and note text).
pub uninterp spec fn collection_model(v: safer_ffi::vec::Vec<Todo>) -> Seq<(i32, Seq<char>)>;

/// The observable values of a host-native sequence of records, in order.
pub open spec fn todos_view(s: Seq<Todo>) -> Seq<(i32, Seq<char>)> {
    s.map_values(|t: Todo| t@)
}

/// Relies on `From<std::vec::Vec<T>> for safer_ffi::vec::Vec<T>`: the boundary
/// vector takes over the host vector's buffer, so it holds the same elements
/// in the same order.
#[verifier::external_body]
fn to_boundary(items: Vec<Todo>) -> (r: safer_ffi::vec::Vec<Todo>)
    ensures
        collection_model(r) == todos_view(items@),
{
    items.into()
}

/// Relies on `safer_ffi::vec::Vec<T>`'s deref to a slice together with
/// [`Todo::clone`]: iterating the boundary buffer and cloning each record
/// yields a host vector whose records observe the same values in the same
/// order, sharing no storage with the buffer.
#[verifier::external_body]
fn from_boundary(v: &safer_ffi::vec::Vec<Todo>) -> (r: Vec<Todo>)
    ensures
        todos_view(r@) == collection_model(*v),
{
    v.iter().cloned().collect()
}

/// Relies on `safer_ffi::vec::Vec<T>`'s deref to a slice: `len` returns the
/// buffer's explicit length field, the number of elements it holds.
#[verifier::external_body]
pub(crate) fn boundary_len(v: &safer_ffi::vec::Vec<Todo>) -> (n: usize)
    ensures
        n == collection_model(*v).len(),
{
    v.len()
}

/// Relies on `safer_ffi::vec::Vec<T>`'s deref to a slice: indexing within the
/// length borrows the element stored at that position.
#[verifier::external_body]
pub(crate) fn boundary_get<'a>(v: &'a safer_ffi::vec::Vec<Todo>, i: usize) -> (t: &'a Todo)
    requires
        i < collection_model(*v).len(),
    ensures
        (*t)@ == collection_model(*v)[i as int],
{
    &v[i]
}

/// An empty boundary collection (length 0).
pub fn collection_new() -> (r: safer_ffi::vec::Vec<Todo>)
    ensures
        collection_model(r) == Seq::<(i32, Seq<char>)>::empty(),
{
    let items: Vec<Todo> = Vec::new();
    let r = to_boundary(items);
    proof {
        assert(collection_model(r) =~= Seq::<(i32, Seq<char>)>::empty());
    }
    r
}

/// Copy-on-append: build a new boundary buffer holding the prior elements
/// (deep-copied) followed by `item`, leaving `v` itself untouched. The caller
/// replaces its old buffer with the result and discards the old one; indices
/// issued before the append stay valid in the new buffer.
///
/// Appending cannot fail for any in-memory value: exhaustion of the allocator
/// itself is fatal to the process, as everywhere in this crate, and is never
/// surfaced as a value.
pub fn collection_append(v: &safer_ffi::vec::Vec<Todo>, item: Todo) -> (r: safer_ffi::vec::Vec<
    Todo,
>)
    ensures
        collection_model(r) == collection_model(*v).push(item@),
{
    let ghost before = collection_model(*v);
    let mut items: Vec<Todo> = from_boundary(v);
    items.push(item);
    let r = to_boundary(items);
    proof {
        assert(collection_model(r) =~= before.push(item@));
    }
    r
}

/// Appending never disturbs what is already there: the new sequence is one
/// longer, every element that was at an index is still at that index, and the
/// appended element sits at the end. Repeated appends therefore keep every
/// element at the position it was appended at, and the length equals the
/// number of appends performed.
pub proof fn lemma_append_keeps_order(s: Seq<(i32, Seq<char>)>, item: (i32, Seq<char>))
    ensures
        s.push(item).len() == s.len() + 1,
        forall|i: int| 0 <= i < s.len() ==> s.push(item)[i] == s[i],
        s.push(item)[s.len() as int] == item,
{
}

} // verus!
