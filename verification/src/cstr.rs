//! String marshaling: between host-native text (`&str`, `String`) and the
//! boundary form, an owned, null-terminated, UTF-8 string (`char_p_boxed`).
//!
//! A boundary string can hold any text that has no interior null byte; the
//! terminator is what the far side uses to find the end, so text with a null
//! in it is rejected before anything is allocated. Reading a boundary string
//! back always copies: the caller receives a fresh ownership unit, never a
//! view into the owning side's memory.
use vstd::prelude::*;

use safer_ffi::char_p::char_p_boxed;

verus! {

/// The boundary form of an owned string: `safer_ffi`'s `char_p_boxed`, a slim
/// pointer to an owned, null-terminated, UTF-8 buffer. Opaque to the verifier;
/// its text is reached only through [`cstr_chars`].
#[verifier::external_type_specification]
#[verifier::external_body]
pub struct ExCharPBoxed(char_p_boxed);

/// The text a boundary string holds: the characters from the start of its
/// buffer up to (not including) the null terminator.
pub uninterp spec fn cstr_chars(b: char_p_boxed) -> Seq<char>;

/// Relies on `safer_ffi::char_p::new`: it stores exactly the bytes of `s`
/// followed by a null terminator. On text with an interior null byte it would
/// panic, so such text is excluded here and rejected earlier by [`string_in`].
#[verifier::external_body]
fn cstr_new(s: &str) -> (r: char_p_boxed)
    requires
        !s@.contains('\0'),
    ensures
        cstr_chars(r) == s@,
{
    safer_ffi::char_p::new(s)
}

/// Relies on `char_p_boxed::to_str`: it returns the buffer's bytes up to the
/// null terminator, which therefore contain no null, decoded as the UTF-8 they
/// were stored from.
#[verifier::external_body]
fn cstr_read(b: &char_p_boxed) -> (r: String)
    ensures
        r@ == cstr_chars(*b),
        !r@.contains('\0'),
{
    b.to_str().to_string()
}

/// Why a text input was refused at the boundary.
#[derive(Debug, PartialEq, Eq, Structural)]
pub enum MarshalError {
    /// The text cannot live in a null-terminated buffer: it has an interior
    /// null byte (or is otherwise not encodable; UTF-8 validity is already
    /// guaranteed by the host string type).
    InvalidEncoding,
}

/// Whether `s` holds a null character anywhere. In UTF-8 the byte 0 encodes
/// exactly the character `'\0'`, so this decides whether the text fits in a
/// null-terminated buffer.
pub(crate) fn contains_interior_nul(s: &str) -> (found: bool)
    ensures
        found == s@.contains('\0'),
{
    let n: usize = s.unicode_len();
    let mut i: usize = 0;
    while i < n
        invariant
            i <= n,
            n == s@.len(),
            forall|j: int| 0 <= j < i ==> s@[j] != '\0',
        decreases n - i,
    {
        if s.get_char(i) == '\0' {
            assert(s@.contains('\0'));
            return true;
        }
        i += 1;
    }
    assert(!s@.contains('\0')) by {
        if s@.contains('\0') {
            let j = choose|j: int| 0 <= j < s@.len() && s@[j] == '\0';
            assert(s@[j] != '\0');
        }
    }
    false
}

/// Marshal host text into the boundary: validate that it can live in a
/// null-terminated buffer, then allocate an owned boundary string holding
/// exactly that text. The input is only borrowed; the result is a new
/// ownership unit that must eventually be released (see [`string_free`]).
pub fn string_in(s: &str) -> (r: Result<char_p_boxed, MarshalError>)
    ensures
        r is Ok <==> !s@.contains('\0'),
        r matches Ok(b) ==> cstr_chars(b) == s@,
        r matches Err(e) ==> e == MarshalError::InvalidEncoding,
{
    if contains_interior_nul(s) {
        Err(MarshalError::InvalidEncoding)
    } else {
        Ok(cstr_new(s))
    }
}

/// Duplicate-on-read: hand the caller a freshly allocated boundary string with
/// the same text. The source stays owned by whoever held it; the two buffers
/// share nothing, so each side frees its own copy and neither can dangle.
pub fn string_out(b: &char_p_boxed) -> (r: char_p_boxed)
    ensures
        cstr_chars(r) == cstr_chars(*b),
{
    let text = cstr_read(b);
    cstr_new(text.as_str())
}

/// Release an owned boundary string. Ownership moves into the call, so the
/// buffer is freed exactly once and the value cannot be used afterwards.
pub fn string_free(b: char_p_boxed) {
}

/// Marshaling text in and then reading it back out observes the original
/// text unchanged, for every text without an interior null: the value
/// [`string_in`] produces holds exactly `s`, and the copy [`string_out`]
/// hands back holds the same characters.
pub proof fn lemma_string_round_trip(s: Seq<char>, owned: char_p_boxed, copy: char_p_boxed)
    requires
        !s.contains('\0'),
        cstr_chars(owned) == s,
        cstr_chars(copy) == cstr_chars(owned),
    ensures
        cstr_chars(copy) == s,
{
}

} // verus!
