//! The streaming codec: one complete message in, one complete frame out, and
//! back.
//!
//! What zstd computes is not spelled out here. The frame it emits and the
//! message it reconstructs are given names, and the two calls into zstd are
//! trusted to return what the names stand for. Everything else in the library
//! is proved from that.

use crate::buffer::overwritten;
use crate::dictionary::decoder_dictionary_content;
use crate::dictionary::encoder_dictionary_content;
use crate::dictionary::encoder_dictionary_level;
use crate::dictionary::raw_dictionary;
use vstd::prelude::*;
use zstd::dict::DecoderDictionary;
use zstd::dict::EncoderDictionary;

verus! {

/// The frame that zstd's streaming encoder emits for the whole of `data`,
/// working with a dictionary prepared from `dictionary` for `level`.
pub uninterp spec fn zstd_frame(dictionary: Seq<u8>, level: i32, data: Seq<u8>) -> Seq<u8>;

/// What zstd's streaming decoder reconstructs from the whole of `input`,
/// working with a dictionary prepared from `dictionary`; `None` where `input`
/// is not a run of complete frames that it can decode.
pub uninterp spec fn zstd_decoded(dictionary: Seq<u8>, input: Seq<u8>) -> Option<Seq<u8>>;

/// `frame` is the compressed form of `data` at `level` under the embedded
/// dictionary: the frame that the codec emits for it, and one that decodes
/// back to exactly `data`.
pub open spec fn is_compressed_form(level: i32, data: Seq<u8>, frame: Seq<u8>) -> bool {
    &&& frame == zstd_frame(raw_dictionary(), level, data)
    &&& zstd_decoded(raw_dictionary(), frame) == Some(data)
}

/// What decompressing `input` under the embedded dictionary comes to: the
/// message, or `None` where the decoder refuses `input`.
pub open spec fn decompressed(input: Seq<u8>) -> Option<Seq<u8>> {
    zstd_decoded(raw_dictionary(), input)
}

/// `data` is what `input` decompresses to under the embedded dictionary.
pub open spec fn is_decompressed_form(input: Seq<u8>, data: Seq<u8>) -> bool {
    decompressed(input) == Some(data)
}

/// Runs `zstd::stream::Encoder` over `bytes`: made with
/// `with_prepared_dictionary` around a cursor at the start of `out`, fed by
/// `std::io::copy`, and closed with `finish`.
///
/// Trusted: the run succeeds, for there is no input that the encoder refuses
/// and a buffer in memory takes every write; the number returned is the
/// length of the frame; the frame is the one named by `zstd_frame` for the
/// dictionary's content and level; it was written over `out` from position
/// zero, so what `out` held beyond it is still there; and, zstd being
/// lossless, the frame decodes under the same dictionary content to `bytes`.
/// All of this is said with memory set aside: where zstd cannot allocate, it
/// panics on its context and reports an error on its work space.
#[verifier::external_body]
pub(crate) fn encode_stream(
    dictionary: &EncoderDictionary<'static>,
    bytes: &[u8],
    out: &mut Vec<u8>,
) -> (run: Result<usize, std::io::Error>)
    ensures
        run is Ok,
        run matches Ok(written) ==> {
            let content = encoder_dictionary_content(*dictionary);
            let frame = zstd_frame(content, encoder_dictionary_level(*dictionary), bytes@);
            &&& written == frame.len()
            &&& final(out)@ == overwritten(old(out)@, frame)
            &&& zstd_decoded(content, frame) == Some(bytes@)
        },
{
    let mut source = std::io::Cursor::new(bytes);
    let mut sink = std::io::Cursor::new(out);
    let mut encoder = zstd::stream::Encoder::with_prepared_dictionary(&mut sink, dictionary)?;
    std::io::copy(&mut source, &mut encoder)?;
    encoder.finish()?;
    Ok(sink.position() as usize)
}

/// Runs `zstd::stream::Decoder` over `bytes`: made with
/// `with_prepared_dictionary` around `bytes`, and drained by `std::io::copy`
/// into a cursor at the start of `out`.
///
/// Trusted: the run succeeds exactly where `zstd_decoded` has a message for
/// `bytes` under the dictionary's content, which is where `bytes` is a run of
/// complete frames that the decoder takes. Then the number returned is the
/// message's length, and the message was written over `out` from position
/// zero. Of a run that fails no more is claimed, `out` may hold part of a
/// message. Memory is set aside here as it is for the encoder.
#[verifier::external_body]
pub(crate) fn decode_stream(
    dictionary: &DecoderDictionary<'static>,
    bytes: &[u8],
    out: &mut Vec<u8>,
) -> (run: Result<usize, std::io::Error>)
    ensures
        match run {
            Ok(written) => {
                let decoded = zstd_decoded(decoder_dictionary_content(*dictionary), bytes@);
                &&& decoded is Some
                &&& written == decoded->0.len()
                &&& final(out)@ == overwritten(old(out)@, decoded->0)
            },
            Err(_) => zstd_decoded(decoder_dictionary_content(*dictionary), bytes@) is None,
        },
{
    let mut source = std::io::Cursor::new(bytes);
    let mut sink = std::io::Cursor::new(out);
    let mut decoder = zstd::stream::Decoder::with_prepared_dictionary(&mut source, dictionary)?;
    std::io::copy(&mut decoder, &mut sink)?;
    Ok(sink.position() as usize)
}

} // verus!
