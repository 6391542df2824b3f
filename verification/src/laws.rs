//! What holds of the wrapper across calls, stated over the same spec
//! functions as the contracts of its operations.

use crate::buffer::overwritten;
use crate::buffer::view_of;
use crate::codec::decompressed;
use crate::codec::is_compressed_form;
use crate::codec::is_decompressed_form;
use vstd::prelude::*;

verus! {

/// Round trip, in either mode and across modes: a frame that compression
/// yielded for `data` is one that decompression takes, and what it yields
/// for it is `data`, byte for byte, also where `data` is empty. `compress`
/// and `compress_owned` promise the premise of their result on every input;
/// `decompress` and `decompress_owned` return `Ok` of the message exactly
/// where `decompressed` has one.
pub proof fn lemma_roundtrip(level: i32, data: Seq<u8>, frame: Seq<u8>)
    requires
        is_compressed_form(level, data, frame),
    ensures
        decompressed(frame) == Some(data),
        is_decompressed_form(frame, data),
        forall|restored: Seq<u8>| is_decompressed_form(frame, restored) ==> restored == data,
{
}

/// Determinism, and agreement of the two modes on the wire: two frames that
/// compression yielded for the same `data` at the same `level` are the same
/// bytes.
pub proof fn lemma_compression_is_deterministic(
    level: i32,
    data: Seq<u8>,
    first: Seq<u8>,
    second: Seq<u8>,
)
    requires
        is_compressed_form(level, data, first),
        is_compressed_form(level, data, second),
    ensures
        first == second,
{
}

/// Isolation of a short output from a long one before it: when `long` was
/// written into the buffer and `short` after it, the view of the second call
/// is `short` and nothing else, although the buffer still holds the tail of
/// `long` behind it.
pub proof fn lemma_short_after_long(stored: Seq<u8>, long: Seq<u8>, short: Seq<u8>)
    requires
        short.len() < long.len(),
    ensures
        ({
            let after_long = overwritten(stored, long);
            let after_short = overwritten(after_long, short);
            &&& view_of(after_short, short.len()) == short
            &&& after_short.len() >= long.len()
            &&& forall|i: int|
                short.len() <= i < long.len() ==> #[trigger] after_short[i] == long[i]
        }),
{
    let after_long = overwritten(stored, long);
    let after_short = overwritten(after_long, short);
    assert(view_of(after_short, short.len()) =~= short);
}

/// Stability over a run of calls on one wrapper: a compression, then a
/// decompression, then another compression, each with its own input. Every
/// view is the output of its own call alone, whatever the buffer held at the
/// start and whatever the calls before left in it.
pub proof fn lemma_calls_do_not_interfere(
    stored: Seq<u8>,
    first_frame: Seq<u8>,
    message: Seq<u8>,
    second_frame: Seq<u8>,
)
    ensures
        ({
            let after_first = overwritten(stored, first_frame);
            let after_message = overwritten(Seq::<u8>::empty(), message);
            let after_second = overwritten(after_message, second_frame);
            &&& view_of(after_first, first_frame.len()) == first_frame
            &&& after_message == message
            &&& view_of(after_second, second_frame.len()) == second_frame
        }),
{
    let after_first = overwritten(stored, first_frame);
    let after_message = overwritten(Seq::<u8>::empty(), message);
    let after_second = overwritten(after_message, second_frame);
    assert(view_of(after_first, first_frame.len()) =~= first_frame);
    assert(view_of(after_second, second_frame.len()) =~= second_frame);
}

} // verus!
