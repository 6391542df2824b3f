use ton_block_compressor::buffer::written_view;
use ton_block_compressor::dictionary::DictionaryStore;
use ton_block_compressor::dictionary::DEFAULT_LEVEL;
use ton_block_compressor::dictionary::DICTIONARY;
use ton_block_compressor::dictionary::MIN_LOADED_LEN;
use ton_block_compressor::wrapper::commit_owned;
use ton_block_compressor::wrapper::commit_view;
use ton_block_compressor::CodecError;
use ton_block_compressor::Operation;
use ton_block_compressor::ZstdWrapper;

const SAMPLE: &[u8] = b"asasaasasasasasasasasasaaaaaaaaaaaaasassas";

fn patterned(len: usize) -> Vec<u8> {
    let mut state: u32 = 0x1234_5678;
    let mut out = Vec::with_capacity(len);
    for _ in 0..len {
        state = state.wrapping_mul(1_664_525).wrapping_add(1_013_904_223);
        out.push((state >> 24) as u8);
    }
    out
}

#[test]
fn sample_round_trips_exactly() {
    let mut wrapper = ZstdWrapper::new();
    let frame = wrapper.compress(SAMPLE).unwrap().to_vec();
    assert_ne!(frame.as_slice(), SAMPLE);
    let restored = wrapper.decompress(&frame).unwrap();
    assert_eq!(restored, SAMPLE);
}

#[test]
fn empty_message_round_trips_to_empty() {
    let mut wrapper = ZstdWrapper::new();
    let frame = wrapper.compress(&[]).unwrap().to_vec();
    assert!(!frame.is_empty());
    let restored = wrapper.decompress(&frame).unwrap();
    assert!(restored.is_empty());
    let owned = wrapper.decompress_owned(&frame).unwrap();
    assert!(owned.is_empty());
}

#[test]
fn all_zero_message_round_trips() {
    let mut wrapper = ZstdWrapper::new();
    let message = vec![0u8; 100_000];
    let frame = wrapper.compress(&message).unwrap().to_vec();
    assert!(frame.len() < message.len());
    assert_eq!(wrapper.decompress(&frame).unwrap(), message.as_slice());
}

#[test]
fn every_byte_value_round_trips() {
    let wrapper = ZstdWrapper::new();
    let message: Vec<u8> = (0..=255u8).collect();
    let frame = wrapper.compress_owned(&message).unwrap();
    assert_eq!(wrapper.decompress_owned(&frame).unwrap(), message);
}

#[test]
fn modes_are_compatible_on_the_wire() {
    let mut wrapper = ZstdWrapper::new();
    let message = patterned(20_000);
    let borrowed = wrapper.compress(&message).unwrap().to_vec();
    let owned = wrapper.compress_owned(&message).unwrap();
    assert_eq!(borrowed, owned);
    assert_eq!(wrapper.decompress_owned(&borrowed).unwrap(), message);
    assert_eq!(wrapper.decompress(&owned).unwrap(), message.as_slice());
}

#[test]
fn compression_is_deterministic() {
    let mut wrapper = ZstdWrapper::with_level(7);
    let message = patterned(50_000);
    let first = wrapper.compress(&message).unwrap().to_vec();
    let second = wrapper.compress(&message).unwrap().to_vec();
    assert_eq!(first, second);
    let other = ZstdWrapper::with_level(7);
    assert_eq!(other.compress_owned(&message).unwrap(), first);
}

#[test]
fn short_output_after_long_carries_no_residue() {
    let mut wrapper = ZstdWrapper::new();
    let long = patterned(64 * 1024);
    let long_len = wrapper.compress(&long).unwrap().len();
    let expected = ZstdWrapper::new().compress_owned(SAMPLE).unwrap();
    let short = wrapper.compress(SAMPLE).unwrap();
    assert!(short.len() < long_len);
    assert_eq!(short, expected.as_slice());
}

#[test]
fn calls_on_one_wrapper_do_not_interfere() {
    let mut wrapper = ZstdWrapper::new();
    let fresh = ZstdWrapper::new();
    let first = patterned(30_000);
    let second = vec![7u8; 5_000];
    let third = patterned(300);

    let first_frame = wrapper.compress(&first).unwrap().to_vec();
    assert_eq!(first_frame, fresh.compress_owned(&first).unwrap());

    let second_frame = fresh.compress_owned(&second).unwrap();
    assert_eq!(wrapper.decompress(&second_frame).unwrap(), second.as_slice());

    let third_frame = wrapper.compress(&third).unwrap().to_vec();
    assert_eq!(third_frame, fresh.compress_owned(&third).unwrap());
    assert_eq!(wrapper.decompress(&first_frame).unwrap(), first.as_slice());
}

#[test]
fn higher_level_is_not_larger_on_repetitive_input() {
    let message = vec![8u8; 1024 * 1024 * 8];
    let default = ZstdWrapper::new().compress_owned(&message).unwrap();
    let higher = ZstdWrapper::with_level(9).compress_owned(&message).unwrap();
    assert!(higher.len() <= default.len());
    assert!(default.len() < message.len());
}

#[test]
fn incompressible_input_succeeds() {
    let wrapper = ZstdWrapper::new();
    let message = patterned(1024 * 1024 * 8);
    let frame = wrapper.compress_owned(&message).unwrap();
    assert!(!frame.is_empty());
    assert_eq!(wrapper.decompress_owned(&frame).unwrap(), message);
}

#[test]
fn foreign_input_is_a_decompression_failure() {
    let mut wrapper = ZstdWrapper::new();
    let noise = patterned(4096);
    let error = wrapper.decompress(&noise).unwrap_err();
    assert_eq!(error.operation, Operation::Decompress);
    assert!(!error.reason.is_empty());
    let error = wrapper.decompress_owned(&noise).unwrap_err();
    assert_eq!(error.operation, Operation::Decompress);
}

#[test]
fn empty_input_is_a_decompression_failure() {
    let mut wrapper = ZstdWrapper::new();
    let error = wrapper.decompress(&[]).unwrap_err();
    assert_eq!(error.operation, Operation::Decompress);
}

#[test]
fn truncated_frame_is_a_decompression_failure() {
    let mut wrapper = ZstdWrapper::new();
    let frame = wrapper.compress(&patterned(10_000)).unwrap().to_vec();
    let cut = &frame[..frame.len() - 1];
    let error = wrapper.decompress(cut).unwrap_err();
    assert_eq!(error.operation, Operation::Decompress);
    assert!(wrapper.decompress(&frame).is_ok());
}

#[test]
fn frame_needs_the_embedded_dictionary() {
    let wrapper = ZstdWrapper::new();
    let message: Vec<u8> = DICTIONARY.iter().chain(DICTIONARY.iter()).copied().collect();
    let frame = wrapper.compress_owned(&message).unwrap();
    let with_dictionary = zstd::bulk::Decompressor::with_dictionary(&DICTIONARY[..])
        .unwrap()
        .decompress(&frame, message.len())
        .unwrap();
    assert_eq!(with_dictionary, message);
    let without = zstd::stream::decode_all(frame.as_slice());
    assert!(without.is_err() || without.unwrap() != message);
}

#[test]
fn default_level_is_the_codec_default() {
    assert_eq!(DEFAULT_LEVEL, 3);
    assert_eq!(DEFAULT_LEVEL, zstd::DEFAULT_COMPRESSION_LEVEL);
    let message = patterned(40_000);
    let by_new = ZstdWrapper::new().compress_owned(&message).unwrap();
    let by_level = ZstdWrapper::with_level(3).compress_owned(&message).unwrap();
    let by_default = ZstdWrapper::default().compress_owned(&message).unwrap();
    assert_eq!(by_new, by_level);
    assert_eq!(by_new, by_default);
}

#[test]
fn level_changes_the_frame_not_the_message() {
    let message: Vec<u8> = (0..200_000u32).map(|i| (i % 251) as u8 ^ (i / 977) as u8).collect();
    let fast = ZstdWrapper::with_level(1);
    let strong = ZstdWrapper::with_level(19);
    let fast_frame = fast.compress_owned(&message).unwrap();
    let strong_frame = strong.compress_owned(&message).unwrap();
    assert_ne!(fast_frame, strong_frame);
    assert_eq!(strong.decompress_owned(&fast_frame).unwrap(), message);
    assert_eq!(fast.decompress_owned(&strong_frame).unwrap(), message);
}

#[test]
fn dictionary_is_raw_content_of_loadable_length() {
    assert_eq!(DICTIONARY.len(), 64);
    assert!(DICTIONARY.len() >= MIN_LOADED_LEN);
    assert_ne!(&DICTIONARY[..4], &[0x37, 0xa4, 0x30, 0xec]);
}

#[test]
fn store_hands_out_working_dictionaries() {
    let store = DictionaryStore::load(5);
    let message = patterned(2_000);
    let mut frame = Vec::new();
    {
        let mut encoder =
            zstd::stream::Encoder::with_prepared_dictionary(&mut frame, store.encoder()).unwrap();
        std::io::Write::write_all(&mut encoder, &message).unwrap();
        encoder.finish().unwrap();
    }
    assert_eq!(ZstdWrapper::with_level(5).compress_owned(&message).unwrap(), frame);
    let mut decoder =
        zstd::stream::Decoder::with_prepared_dictionary(frame.as_slice(), store.decoder())
            .unwrap();
    let mut restored = Vec::new();
    std::io::Read::read_to_end(&mut decoder, &mut restored).unwrap();
    assert_eq!(restored, message);
}

#[test]
fn written_view_is_cut_at_the_count() {
    let buffer = vec![1u8, 2, 3, 4, 5];
    assert_eq!(written_view(&buffer, 3), &[1, 2, 3]);
    assert_eq!(written_view(&buffer, 0), &[] as &[u8]);
    assert_eq!(written_view(&buffer, 5), &[1, 2, 3, 4, 5]);
}

#[test]
fn commit_view_hands_out_the_written_prefix() {
    let buffer = vec![9u8, 8, 7, 6];
    let view = commit_view(&buffer, Ok(2), Operation::Compress).unwrap();
    assert_eq!(view, &[9, 8]);
}

#[test]
fn commit_view_reports_the_failure() {
    let buffer = vec![9u8, 8, 7, 6];
    let cause = std::io::Error::new(std::io::ErrorKind::Other, "Unknown frame descriptor");
    let error = commit_view(&buffer, Err(cause), Operation::Decompress).unwrap_err();
    assert_eq!(
        error,
        CodecError {
            operation: Operation::Decompress,
            reason: "Unknown frame descriptor".to_string(),
        }
    );
}

#[test]
fn commit_owned_hands_out_the_whole_output() {
    let output = vec![4u8, 5, 6];
    assert_eq!(commit_owned(output, Ok(3), Operation::Compress).unwrap(), vec![4, 5, 6]);
}

#[test]
fn commit_owned_reports_the_failure() {
    let cause = std::io::Error::new(std::io::ErrorKind::Other, "out of memory");
    let error = commit_owned(vec![1, 2], Err(cause), Operation::Compress).unwrap_err();
    assert_eq!(error.operation, Operation::Compress);
    assert_eq!(error.reason, "out of memory");
}

#[test]
fn error_from_cause_keeps_operation_and_text() {
    let cause = std::io::Error::new(std::io::ErrorKind::UnexpectedEof, "incomplete frame");
    let error = CodecError::from_cause(Operation::Decompress, &cause);
    assert_eq!(error.operation, Operation::Decompress);
    assert_eq!(error.reason, "incomplete frame");
}

#[test]
fn good_frame_decodes_after_a_failure() {
    let mut wrapper = ZstdWrapper::new();
    let message = patterned(3_000);
    let frame = wrapper.compress(&message).unwrap().to_vec();
    assert!(wrapper.decompress(&patterned(512)).is_err());
    assert_eq!(wrapper.decompress(&frame).unwrap(), message.as_slice());
    assert_eq!(wrapper.compress(&message).unwrap(), frame.as_slice());
}

#[test]
fn both_modes_succeed_on_the_same_inputs() {
    let mut wrapper = ZstdWrapper::new();
    let inputs: [&[u8]; 3] = [b"", SAMPLE, &[0u8; 10_240]];
    for input in inputs {
        let owned = wrapper.compress_owned(input).unwrap();
        assert_eq!(wrapper.compress(input).unwrap(), owned.as_slice());
        assert_eq!(wrapper.decompress_owned(&owned).unwrap(), input);
        assert_eq!(wrapper.decompress(&owned).unwrap(), input);
    }
    let junk = patterned(100);
    assert!(wrapper.decompress(&junk).is_err());
    assert!(wrapper.decompress_owned(&junk).is_err());
}
