//! The dictionary store: the embedded raw dictionary and the two prepared
//! forms of it that the codec works with.
//!
//! The raw dictionary is a fixed sample of payload content. It is handed to
//! zstd as *raw content*: bytes that matches may refer back to, without the
//! entropy tables of a trained dictionary. zstd tells the two apart by a
//! four-byte magic number at the start, and only a dictionary that carries the
//! magic number can be rejected as malformed when it is prepared. That the
//! embedded bytes do not carry it is proved here, once, for every build.

use vstd::prelude::*;
use zstd::dict::DecoderDictionary;
use zstd::dict::EncoderDictionary;

verus! {

/// The embedded raw dictionary: the same bytes for every wrapper of a build.
pub const DICTIONARY: [u8; 64] = [
    0x00, 0x00, 0x00, 0x00, 0x00, 0x00, 0x00, 0x00,
    0xff, 0xff, 0xff, 0xff, 0xff, 0xff, 0xff, 0xff,
    0x00, 0x01, 0x00, 0x02, 0x00, 0x03, 0x00, 0x04,
    0x00, 0x00, 0x00, 0x01, 0x00, 0x00, 0x00, 0x02,
    0x01, 0x02, 0x03, 0x04, 0x05, 0x06, 0x07, 0x08,
    0x10, 0x20, 0x30, 0x40, 0x50, 0x60, 0x70, 0x80,
    0x80, 0x00, 0x00, 0x00, 0x00, 0x00, 0x00, 0x01,
    0x00, 0x00, 0x00, 0x00, 0xff, 0xff, 0xff, 0xff,
];

/// Compression level of a wrapper that was built without naming one.
pub const DEFAULT_LEVEL: i32 = 3;

/// Below this length zstd sets a dictionary aside without looking into it.
pub const MIN_LOADED_LEN: usize = 8;

/// The dictionary's bytes, as contracts speak of them.
pub open spec fn raw_dictionary() -> Seq<u8> {
    DICTIONARY@
}

/// `bytes` begins with the magic number `0xEC30A437` (little endian) by which
/// zstd recognises a trained dictionary.
pub open spec fn has_dictionary_magic(bytes: Seq<u8>) -> bool {
    &&& bytes.len() >= 4
    &&& bytes[0] == 0x37
    &&& bytes[1] == 0xa4
    &&& bytes[2] == 0x30
    &&& bytes[3] == 0xec
}

/// `bytes` is a dictionary that zstd takes as raw content (or, when shorter
/// than `MIN_LOADED_LEN`, sets aside): preparing it cannot be refused.
pub open spec fn is_raw_content(bytes: Seq<u8>) -> bool {
    bytes.len() < MIN_LOADED_LEN || !has_dictionary_magic(bytes)
}

/// The embedded dictionary is long enough to be loaded and is raw content.
pub proof fn lemma_dictionary_is_raw_content()
    ensures
        raw_dictionary().len() == 64,
        raw_dictionary().len() >= MIN_LOADED_LEN,
        is_raw_content(raw_dictionary()),
{
    assert(DICTIONARY@[0] == 0x00);
}

/// Declares `zstd::dict::EncoderDictionary`, a dictionary prepared for
/// compression. Nothing is claimed of what is inside it.
#[verifier::external_type_specification]
#[verifier::external_body]
pub struct ExEncoderDictionary<'a>(EncoderDictionary<'a>);

/// Declares `zstd::dict::DecoderDictionary`, a dictionary prepared for
/// decompression. Nothing is claimed of what is inside it.
#[verifier::external_type_specification]
#[verifier::external_body]
pub struct ExDecoderDictionary<'a>(DecoderDictionary<'a>);

/// The raw bytes that a prepared compression dictionary was made from, and of
/// which it holds a copy.
pub uninterp spec fn encoder_dictionary_content(prepared: EncoderDictionary<'static>) -> Seq<u8>;

/// The compression level that a prepared compression dictionary was made for.
pub uninterp spec fn encoder_dictionary_level(prepared: EncoderDictionary<'static>) -> i32;

/// The raw bytes that a prepared decompression dictionary was made from, and
/// of which it holds a copy.
pub uninterp spec fn decoder_dictionary_content(prepared: DecoderDictionary<'static>) -> Seq<u8>;

/// Calls `zstd::dict::EncoderDictionary::copy`.
///
/// Trusted: the prepared dictionary holds a copy of `raw` and is tuned for
/// `level`. zstd panics when it cannot load the dictionary, which, memory
/// permitting, happens only to bytes that carry the trained-dictionary magic
/// number; `requires` leaves those out. Every `level` is taken (zstd reads 0
/// as its default and clamps what lies above its range).
#[verifier::external_body]
fn prepare_encoder(raw: &[u8], level: i32) -> (prepared: EncoderDictionary<'static>)
    requires
        is_raw_content(raw@),
    ensures
        encoder_dictionary_content(prepared) == raw@,
        encoder_dictionary_level(prepared) == level,
{
    EncoderDictionary::copy(raw, level)
}

/// Calls `zstd::dict::DecoderDictionary::copy`.
///
/// Trusted: the prepared dictionary holds a copy of `raw`. As for
/// compression, zstd panics, memory permitting, only on bytes that carry the
/// magic number and then fail to load; `requires` leaves those out.
#[verifier::external_body]
fn prepare_decoder(raw: &[u8]) -> (prepared: DecoderDictionary<'static>)
    requires
        is_raw_content(raw@),
    ensures
        decoder_dictionary_content(prepared) == raw@,
{
    DecoderDictionary::copy(raw)
}

/// Reads `zstd::DEFAULT_COMPRESSION_LEVEL`.
///
/// Trusted: zstd's default level is `DEFAULT_LEVEL`.
#[verifier::external_body]
pub(crate) fn codec_default_level() -> (level: i32)
    ensures
        level == DEFAULT_LEVEL,
{
    zstd::DEFAULT_COMPRESSION_LEVEL
}

/// The two prepared forms of the embedded dictionary: one for compression at
/// a chosen level, one for decompression. There is nothing to change in a
/// store once it is loaded; another level takes another store.
pub struct DictionaryStore {
    encoder: EncoderDictionary<'static>,
    decoder: DecoderDictionary<'static>,
}

impl DictionaryStore {
    /// Both prepared forms were made from the embedded dictionary, so what one
    /// compresses the other can decompress.
    #[verifier::type_invariant]
    pub closed spec fn same_source(self) -> bool {
        &&& encoder_dictionary_content(self.encoder) == raw_dictionary()
        &&& decoder_dictionary_content(self.decoder) == raw_dictionary()
    }

    /// The compression level this store was loaded for.
    pub closed spec fn level(self) -> i32 {
        encoder_dictionary_level(self.encoder)
    }

    /// Prepares the embedded dictionary for compression at `level` and for
    /// decompression.
    pub fn load(level: i32) -> (store: Self)
        ensures
            store.level() == level,
            store.same_source(),
    {
        proof {
            lemma_dictionary_is_raw_content();
        }
        let encoder = prepare_encoder(DICTIONARY.as_slice(), level);
        let decoder = prepare_decoder(DICTIONARY.as_slice());
        DictionaryStore { encoder, decoder }
    }

    /// The form prepared for compression: made from the embedded dictionary,
    /// for this store's level.
    pub fn encoder(&self) -> (prepared: &EncoderDictionary<'static>)
        ensures
            encoder_dictionary_content(*prepared) == raw_dictionary(),
            encoder_dictionary_level(*prepared) == self.level(),
    {
        proof {
            use_type_invariant(self);
        }
        &self.encoder
    }

    /// The form prepared for decompression: made from the embedded
    /// dictionary.
    pub fn decoder(&self) -> (prepared: &DecoderDictionary<'static>)
        ensures
            decoder_dictionary_content(*prepared) == raw_dictionary(),
    {
        proof {
            use_type_invariant(self);
        }
        &self.decoder
    }
}

} // verus!
