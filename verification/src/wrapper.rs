//! The codec wrapper: whole-message compression and decompression with the
//! embedded dictionary, into a buffer that is reused from call to call or
//! into a fresh one per call.

use crate::buffer::lemma_view_is_fresh;
use crate::buffer::overwritten;
use crate::buffer::view_of;
use crate::buffer::written_view;
use crate::codec::decode_stream;
use crate::codec::decompressed;
use crate::codec::encode_stream;
use crate::codec::is_compressed_form;
use crate::codec::is_decompressed_form;
use crate::codec::zstd_frame;
use crate::dictionary::codec_default_level;
use crate::dictionary::raw_dictionary;
use crate::dictionary::DictionaryStore;
use crate::dictionary::DEFAULT_LEVEL;
use crate::error::reports;
use crate::error::CodecError;
use crate::error::Operation;
use vstd::prelude::*;

verus! {

/// `error` is a failure of `operation`, with the text of some fault of the
/// codec as its reason.
pub open spec fn is_failure_of(error: CodecError, operation: Operation) -> bool {
    exists|cause: std::io::Error| reports(error, operation, cause)
}

/// What a caller sees of a run that wrote into the reused `buffer`: the first
/// `written` bytes and no more when it succeeded, the failure and no view at
/// all when it did not.
pub fn commit_view<'a>(
    buffer: &'a Vec<u8>,
    run: Result<usize, std::io::Error>,
    operation: Operation,
) -> (result: Result<&'a [u8], CodecError>)
    requires
        run matches Ok(written) ==> written <= buffer@.len(),
    ensures
        match run {
            Ok(written) => result matches Ok(view) && view@ == view_of(buffer@, written as nat),
            Err(cause) => result matches Err(error) && reports(error, operation, cause),
        },
{
    match run {
        Ok(written) => Ok(written_view(buffer, written)),
        Err(cause) => Err(CodecError::from_cause(operation, &cause)),
    }
}

/// What a caller sees of a run that wrote into a buffer of its own: the
/// whole of `output` when it succeeded, the failure and no output when it did
/// not.
pub fn commit_owned(
    output: Vec<u8>,
    run: Result<usize, std::io::Error>,
    operation: Operation,
) -> (result: Result<Vec<u8>, CodecError>)
    ensures
        match run {
            Ok(_) => result == Ok::<Vec<u8>, CodecError>(output),
            Err(cause) => result matches Err(error) && reports(error, operation, cause),
        },
{
    match run {
        Ok(_) => Ok(output),
        Err(cause) => Err(CodecError::from_cause(operation, &cause)),
    }
}

/// A compressor and decompressor for complete messages, seeded with the
/// embedded dictionary. It is built once and used for many calls, each of
/// them independent of the others.
pub struct ZstdWrapper {
    dictionaries: DictionaryStore,
    buffer: Vec<u8>,
}

impl ZstdWrapper {
    /// The compression level, fixed when the wrapper was built.
    pub closed spec fn level(&self) -> i32 {
        self.dictionaries.level()
    }

    /// What the reused buffer holds: the output of the last operation that
    /// wrote into it, and behind that whatever longer output came before.
    pub closed spec fn stored(&self) -> Seq<u8> {
        self.buffer@
    }

    /// A wrapper at the codec's default level.
    pub fn new() -> (wrapper: Self)
        ensures
            wrapper.level() == DEFAULT_LEVEL,
            wrapper.stored() == Seq::<u8>::empty(),
    {
        Self::with_level(codec_default_level())
    }

    /// A wrapper that compresses at `level`. Decompression does not depend
    /// on the level.
    pub fn with_level(level: i32) -> (wrapper: Self)
        ensures
            wrapper.level() == level,
            wrapper.stored() == Seq::<u8>::empty(),
    {
        ZstdWrapper { dictionaries: DictionaryStore::load(level), buffer: Vec::new() }
    }

    /// Compresses `bytes` into the reused buffer and hands out a view of the
    /// frame. The buffer is written from its start and not cleared first: the
    /// view ends where the frame ends, wherever the buffer ends.
    ///
    /// Every input is taken, and with memory to work in the call succeeds. A
    /// fault that the codec reports all the same comes back as the error of
    /// `Operation::Compress`, without a view.
    pub fn compress(&mut self, bytes: &[u8]) -> (result: Result<&[u8], CodecError>)
        ensures
            final(self).level() == old(self).level(),
            result matches Ok(view) && {
                &&& is_compressed_form(old(self).level(), bytes@, view@)
                &&& final(self).stored() == overwritten(old(self).stored(), view@)
                &&& view@ == view_of(final(self).stored(), view@.len())
            },
    {
        let ghost before = self.buffer@;
        let run = encode_stream(self.dictionaries.encoder(), bytes, &mut self.buffer);
        proof {
            lemma_view_is_fresh(
                before,
                zstd_frame(raw_dictionary(), self.dictionaries.level(), bytes@),
            );
        }
        commit_view(&self.buffer, run, Operation::Compress)
    }

    /// Compresses `bytes` into a buffer of its own, which the caller keeps.
    /// It succeeds as `compress` does, with the same frame.
    pub fn compress_owned(&self, bytes: &[u8]) -> (result: Result<Vec<u8>, CodecError>)
        ensures
            result matches Ok(frame) && is_compressed_form(self.level(), bytes@, frame@),
    {
        let mut out_buffer: Vec<u8> = Vec::with_capacity(bytes.len());
        let run = encode_stream(self.dictionaries.encoder(), bytes, &mut out_buffer);
        commit_owned(out_buffer, run, Operation::Compress)
    }

    /// Decompresses `bytes` into a buffer of its own, which the caller keeps.
    /// It succeeds exactly where the decoder takes `bytes`, and fails with the
    /// error of `Operation::Decompress` where it refuses them.
    pub fn decompress_owned(&self, bytes: &[u8]) -> (result: Result<Vec<u8>, CodecError>)
        ensures
            match result {
                Ok(data) => is_decompressed_form(bytes@, data@),
                Err(error) => {
                    &&& decompressed(bytes@) is None
                    &&& is_failure_of(error, Operation::Decompress)
                },
            },
    {
        let mut out_buffer: Vec<u8> = Vec::with_capacity(bytes.len());
        let run = decode_stream(self.dictionaries.decoder(), bytes, &mut out_buffer);
        commit_owned(out_buffer, run, Operation::Decompress)
    }

    /// Decompresses `bytes` into the reused buffer, cleared first, and hands
    /// out a view of the message. It succeeds exactly where the decoder takes
    /// `bytes`, and fails with the error of `Operation::Decompress`, without
    /// a view, where it refuses them.
    pub fn decompress(&mut self, bytes: &[u8]) -> (result: Result<&[u8], CodecError>)
        ensures
            final(self).level() == old(self).level(),
            match result {
                Ok(view) => {
                    &&& is_decompressed_form(bytes@, view@)
                    &&& final(self).stored() == view@
                },
                Err(error) => {
                    &&& decompressed(bytes@) is None
                    &&& is_failure_of(error, Operation::Decompress)
                },
            },
    {
        self.buffer.truncate(0);
        let run = decode_stream(self.dictionaries.decoder(), bytes, &mut self.buffer);
        proof {
            lemma_view_is_fresh(Seq::<u8>::empty(), self.buffer@);
        }
        commit_view(&self.buffer, run, Operation::Decompress)
    }
}

impl Default for ZstdWrapper {
    fn default() -> (wrapper: Self)
        ensures
            wrapper.level() == DEFAULT_LEVEL,
            wrapper.stored() == Seq::<u8>::empty(),
    {
        Self::new()
    }
}

} // verus!
