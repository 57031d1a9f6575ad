//! Fixed-width, NUL-terminated UTF-8 name fields.

use vstd::prelude::*;
use vstd::utf8::{decode_utf8, valid_utf8};
use crate::error::DecodeError;

verus! {

/// The index of the first NUL in `w` at or after `i`, or `w.len()` where
/// there is none.
pub open spec fn text_end(w: Seq<u8>, i: int) -> int
    decreases w.len() - i,
{
    if i < 0 || i >= w.len() || w[i] == 0 {
        if i < 0 { 0 } else { i }
    } else {
        text_end(w, i + 1)
    }
}

/// The `width`-byte window at `off`.
pub open spec fn window(s: Seq<u8>, off: int, width: int) -> Seq<u8> {
    s.subrange(off, off + width)
}

/// The bytes of the name held in the window at `off`: everything before the
/// first NUL, or the whole window where it holds none.
pub open spec fn name_bytes(s: Seq<u8>, off: int, width: int) -> Seq<u8> {
    window(s, off, width).subrange(0, text_end(window(s, off, width), 0))
}

/// Whether the name field at `off` decodes.
pub open spec fn name_valid(s: Seq<u8>, off: int, width: int) -> bool {
    valid_utf8(name_bytes(s, off, width))
}

/// The characters of the name field at `off`.
pub open spec fn name_text(s: Seq<u8>, off: int, width: int) -> Seq<char> {
    decode_utf8(name_bytes(s, off, width))
}

/// Relies on `String::from_utf8`: it succeeds exactly on valid UTF-8, and the
/// string then holds the characters those bytes encode.
#[verifier::external_body]
fn string_from_utf8(v: Vec<u8>) -> (r: Option<String>)
    ensures
        r is Some <==> valid_utf8(v@),
        r matches Some(t) ==> t@ == decode_utf8(v@),
{
    String::from_utf8(v).ok()
}

proof fn lemma_text_end_bounds(w: Seq<u8>, i: int)
    requires
        0 <= i <= w.len(),
    ensures
        i <= text_end(w, i) <= w.len(),
        forall|j: int| i <= j < text_end(w, i) ==> w[j] != 0,
        text_end(w, i) < w.len() ==> w[text_end(w, i)] == 0,
    decreases w.len() - i,
{
    if i < w.len() && w[i] != 0 {
        lemma_text_end_bounds(w, i + 1);
    }
}

/// Decodes the `width`-byte name field at `off`: the bytes before the first
/// NUL, as UTF-8.
pub fn read_name(b: &[u8], off: usize, width: usize) -> (r: Result<String, DecodeError>)
    requires
        off + width <= b.len(),
    ensures
        r is Ok <==> name_valid(b@, off as int, width as int),
        r matches Ok(t) ==> t@ == name_text(b@, off as int, width as int),
        r is Err ==> r == Err::<String, DecodeError>(DecodeError::InvalidText),
{
    let ghost w = window(b@, off as int, width as int);
    let mut end: usize = 0;
    while end < width && b[off + end] != 0
        invariant
            off + width <= b.len(),
            end <= width,
            w == window(b@, off as int, width as int),
            text_end(w, end as int) == text_end(w, 0),
        decreases width - end,
    {
        end = end + 1;
    }
    proof {
        lemma_text_end_bounds(w, 0);
        assert(text_end(w, end as int) == end);
    }
    let mut v: Vec<u8> = Vec::new();
    let mut i: usize = 0;
    while i < end
        invariant
            off + width <= b.len(),
            end <= width,
            i <= end,
            v@ == b@.subrange(off as int, off + i),
        decreases end - i,
    {
        v.push(b[off + i]);
        i = i + 1;
        assert(v@ =~= b@.subrange(off as int, off + i));
    }
    assert(v@ =~= name_bytes(b@, off as int, width as int));
    match string_from_utf8(v) {
        Some(t) => Ok(t),
        None => Err(DecodeError::InvalidText),
    }
}

} // verus!
