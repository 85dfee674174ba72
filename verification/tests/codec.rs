use cartesi_rollups::codec::hex_decode;
use cartesi_rollups::codec::hex_encode;
use cartesi_rollups::codec::hex_encode_prefixed;
use cartesi_rollups::codec::str_eq;
use cartesi_rollups::codec::strip_hex_prefix;
use cartesi_rollups::codec::HexDecodeError;

#[test]
fn encoding_is_lowercase_two_digits_per_byte() {
    assert_eq!(hex_encode(&[0x01, 0x23, 0xAB, 0xCD, 0xEF]), "0123abcdef");
    assert_eq!(hex_encode(&[]), "");
    assert_eq!(hex_encode(&[0x00, 0xFF]), "00ff");
}

#[test]
fn encoding_matches_reference_implementation() {
    let samples: Vec<Vec<u8>> = vec![
        vec![],
        vec![0],
        vec![1, 2, 3],
        vec![0xde, 0xad, 0xbe, 0xef],
        (0u8..=255).collect(),
    ];
    for bytes in samples {
        assert_eq!(hex_encode(&bytes), hex::encode(&bytes));
    }
}

#[test]
fn decoding_returns_encoded_payload_unchanged() {
    let payloads: Vec<Vec<u8>> = vec![
        vec![],
        vec![1, 2, 3],
        vec![0xFF; 40],
        (0u8..=255).collect(),
    ];
    for payload in payloads {
        let encoded = hex_encode(&payload);
        assert_eq!(hex_decode(&encoded).unwrap(), payload);
    }
}

#[test]
fn decoding_ignores_case() {
    assert_eq!(hex_decode("ABCDEF").unwrap(), vec![0xAB, 0xCD, 0xEF]);
    assert_eq!(hex_decode("abcdef").unwrap(), vec![0xAB, 0xCD, 0xEF]);
    assert_eq!(hex_decode("AbCdEf").unwrap(), vec![0xAB, 0xCD, 0xEF]);
}

#[test]
fn decoding_odd_length_is_an_error() {
    assert_eq!(hex_decode("abc"), Err(HexDecodeError::OddLength));
    assert_eq!(hex_decode("0"), Err(HexDecodeError::OddLength));
}

#[test]
fn decoding_a_non_digit_is_an_error() {
    assert_eq!(hex_decode("zz"), Err(HexDecodeError::InvalidDigit));
    assert_eq!(hex_decode("0g"), Err(HexDecodeError::InvalidDigit));
    assert_eq!(hex_decode("a bc"), Err(HexDecodeError::InvalidDigit));
}

#[test]
fn decoding_empty_is_empty() {
    assert_eq!(hex_decode("").unwrap(), Vec::<u8>::new());
}

#[test]
fn prefixed_encoding_starts_with_0x() {
    assert_eq!(hex_encode_prefixed(&[1, 2, 3]), "0x010203");
    assert_eq!(hex_encode_prefixed(&[]), "0x");
}

#[test]
fn prefix_is_stripped_only_when_present() {
    assert_eq!(strip_hex_prefix("0x0102"), "0102");
    assert_eq!(strip_hex_prefix("0102"), "0102");
    assert_eq!(strip_hex_prefix("0x"), "");
    assert_eq!(strip_hex_prefix("0"), "0");
    assert_eq!(strip_hex_prefix(""), "");
}

#[test]
fn string_equality_compares_characters() {
    assert!(str_eq("advance_state", "advance_state"));
    assert!(!str_eq("advance_state", "inspect_state"));
    assert!(!str_eq("abc", "abcd"));
    assert!(str_eq("", ""));
}
