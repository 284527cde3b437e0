use crc32sum::bech::decode_payload;
use crc32sum::checksum::checksum_be_bytes;
use crc32sum::checksum::compute_checksum;
use crc32sum::error::Error;
use crc32sum::hex::checksum_hex;
use crc32sum::phrase::mnemonic_phrase;
use crc32sum::run::exec_bech32;
use crc32sum::run::exec_bytes;
use crc32sum::run::resolve_source;
use crc32sum::run::Source;

#[test]
fn empty_input_checksum_is_zero() {
    let data: Vec<u8> = vec![];
    let rep = exec_bytes(&data).unwrap();
    assert_eq!(rep.checksum, 0x00000000);
    assert_eq!(rep.checksum_line, "CRC32 sum: 00000000");
    assert_eq!(rep.mnemonic_line, "Mnemonic: academy-academy-academy");
}

#[test]
fn three_bytes_checksum_matches_standard_crc32() {
    let data: Vec<u8> = vec![0x01, 0x02, 0x03];
    let rep = exec_bytes(&data).unwrap();
    assert_eq!(rep.checksum, 0x55bc801d);
    assert_eq!(rep.checksum_line, "CRC32 sum: 55bc801d");
    assert_eq!(rep.mnemonic_line, "Mnemonic: patriot-indigo-credit");
}

#[test]
fn checksum_is_deterministic() {
    let data: Vec<u8> = vec![7, 1, 9, 200, 33];
    let first = compute_checksum(&data);
    let second = compute_checksum(&data);
    assert_eq!(first, second);
    let rep_a = exec_bytes(&data).unwrap();
    let rep_b = exec_bytes(&data).unwrap();
    assert_eq!(rep_a.checksum, rep_b.checksum);
    assert_eq!(rep_a.checksum_line, rep_b.checksum_line);
    assert_eq!(rep_a.mnemonic_line, rep_b.mnemonic_line);
}

#[test]
fn bech32_input_matches_byte_input() {
    let payload: Vec<u8> = vec![0x01, 0x02, 0x03];
    let hrp = bech32::Hrp::parse("data").unwrap();
    let encoded = bech32::encode::<bech32::Bech32>(hrp, &payload).unwrap();
    let from_string = exec_bech32(&encoded).unwrap();
    let from_bytes = exec_bytes(&payload).unwrap();
    assert_eq!(from_string.checksum, from_bytes.checksum);
    assert_eq!(from_string.checksum_line, from_bytes.checksum_line);
    assert_eq!(from_string.mnemonic_line, from_bytes.mnemonic_line);
}

#[test]
fn decoded_payload_matches_encoded_bytes() {
    let payload: Vec<u8> = vec![0xde, 0xad, 0xbe, 0xef, 0x00, 0x42];
    let hrp = bech32::Hrp::parse("test").unwrap();
    let encoded = bech32::encode::<bech32::Bech32m>(hrp, &payload).unwrap();
    let decoded = decode_payload(&encoded).unwrap();
    assert_eq!(decoded, payload);
}

#[test]
fn malformed_bech32_is_rejected() {
    let payload: Vec<u8> = vec![0x01, 0x02, 0x03];
    let hrp = bech32::Hrp::parse("data").unwrap();
    let mut encoded = bech32::encode::<bech32::Bech32>(hrp, &payload).unwrap();
    // Corrupt the final checksum character.
    let last = encoded.pop().unwrap();
    encoded.push(if last == 'q' { 'p' } else { 'q' });
    let result = exec_bech32(&encoded);
    match result {
        Err(Error::Bech32(_)) => {}
        _ => panic!("a corrupted checksum must be rejected as a bech32 error"),
    }
}

#[test]
fn bech32_error_message_names_the_cause() {
    let result = decode_payload("not a bech32 string");
    match result {
        Err(err) => {
            let message = err.message();
            assert!(message.starts_with("incorrect bech32(m) string due to "));
        }
        Ok(_) => panic!("an invalid string must not decode"),
    }
}

#[test]
fn file_and_bech32_together_are_rejected() {
    let result = resolve_source(
        Some(String::from("input.bin")),
        Some(String::from("data1qypqxpq9qcrsszg2pvxq6rs0zqg3yyc5z5tpwxqergd3c8g7rusq5e767")),
    );
    match result {
        Err(Error::Conflict) => {}
        _ => panic!("a file path combined with a bech32 string must be rejected"),
    }
}

#[test]
fn single_sources_are_accepted() {
    match resolve_source(Some(String::from("input.bin")), None) {
        Ok(Source::File(path)) => assert_eq!(path, "input.bin"),
        _ => panic!("a lone file path must select the file source"),
    }
    match resolve_source(None, Some(String::from("a12uel5l"))) {
        Ok(Source::Bech32(s)) => assert_eq!(s, "a12uel5l"),
        _ => panic!("a lone bech32 string must select the bech32 source"),
    }
    match resolve_source(None, None) {
        Ok(Source::Stdin) => {}
        _ => panic!("no arguments must select the standard input source"),
    }
}

#[test]
fn mnemonic_is_a_pure_function_of_the_checksum() {
    let zero = checksum_be_bytes(0x00000000);
    let first = mnemonic_phrase(&zero).unwrap();
    let second = mnemonic_phrase(&zero).unwrap();
    assert_eq!(first, second);
    let other = checksum_be_bytes(0x1b937ba2);
    let third = mnemonic_phrase(&other).unwrap();
    assert_ne!(first, third);
}

#[test]
fn mnemonic_phrase_matches_known_encoding() {
    let bytes: Vec<u8> = vec![101, 2, 240, 6, 108, 11, 20, 97];
    let phrase = mnemonic_phrase(&bytes).unwrap();
    assert_eq!(phrase, "digital-apollo-aroma--rival-artist-rebel");
}

#[test]
fn hex_rendering_is_zero_padded_and_lowercase() {
    assert_eq!(checksum_hex(0x00000000), "00000000");
    assert_eq!(checksum_hex(0x1b937ba2), "1b937ba2");
    assert_eq!(checksum_hex(0xffffffff), "ffffffff");
    assert_eq!(checksum_hex(0x0000000a), "0000000a");
}

#[test]
fn big_endian_bytes_come_most_significant_first() {
    assert_eq!(checksum_be_bytes(0x1b937ba2), vec![0x1b, 0x93, 0x7b, 0xa2]);
    assert_eq!(checksum_be_bytes(0x00000001), vec![0x00, 0x00, 0x00, 0x01]);
}

#[test]
fn conflict_message_is_fixed() {
    assert_eq!(
        Error::Conflict.message(),
        "an input file cannot be combined with a bech32 string"
    );
    assert_eq!(
        Error::Utf8.message(),
        "mnemonic encoder produced invalid utf-8"
    );
}
