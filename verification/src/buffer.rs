//! The rule of the reusable output buffer.
//!
//! An operation writes its output into the buffer from position zero. What it
//! writes replaces what was stored there; where the buffer held more than the
//! operation wrote, the rest stays behind it, stale. The view that a caller
//! gets is cut at the number of bytes written, never at the buffer's length.

use vstd::prelude::*;

verus! {

/// What a buffer holds after `fresh` was written into it from position zero,
/// when it held `stored` before.
pub open spec fn overwritten(stored: Seq<u8>, fresh: Seq<u8>) -> Seq<u8> {
    if fresh.len() >= stored.len() {
        fresh
    } else {
        fresh + stored.subrange(fresh.len() as int, stored.len() as int)
    }
}

/// The first `written` bytes of `stored`: the view of one operation's output.
pub open spec fn view_of(stored: Seq<u8>, written: nat) -> Seq<u8> {
    stored.subrange(0, written as int)
}

/// Cutting the buffer at the number of bytes written gives back exactly what
/// was written, whatever the buffer held before and however long it was.
pub proof fn lemma_view_is_fresh(stored: Seq<u8>, fresh: Seq<u8>)
    ensures
        fresh.len() <= overwritten(stored, fresh).len(),
        view_of(overwritten(stored, fresh), fresh.len()) == fresh,
{
    assert(view_of(overwritten(stored, fresh), fresh.len()) =~= fresh);
}

/// The view of an operation that wrote `written` bytes into `buffer`.
pub fn written_view(buffer: &Vec<u8>, written: usize) -> (view: &[u8])
    requires
        written <= buffer@.len(),
    ensures
        view@ == view_of(buffer@, written as nat),
{
    &buffer[0..written]
}

} // verus!
