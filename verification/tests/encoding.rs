use vanity_miner::encoding::decode_sender;
use vanity_miner::SearchError;

const SENDER_HEX: &str = "d8da6bf26964af9d7eed9e03e53415d37aa96045";

#[test]
fn sender_decodes_with_prefix() {
    let with_prefix = format!("0x{}", SENDER_HEX);
    let bytes = decode_sender(&with_prefix).unwrap();
    assert_eq!(bytes.to_vec(), hex::decode(SENDER_HEX).unwrap());
}

#[test]
fn sender_decodes_without_prefix() {
    let bytes = decode_sender(SENDER_HEX).unwrap();
    assert_eq!(bytes[0], 0xd8);
    assert_eq!(bytes[19], 0x45);
}

#[test]
fn sender_accepts_uppercase_digits() {
    let upper = SENDER_HEX.to_uppercase();
    assert_eq!(decode_sender(&upper).unwrap(), decode_sender(SENDER_HEX).unwrap());
}

#[test]
fn sender_with_non_hex_digit_is_rejected() {
    let mut bad = String::from(SENDER_HEX);
    bad.replace_range(0..1, "g");
    assert_eq!(decode_sender(&bad), Err(SearchError::InvalidSender));
}

#[test]
fn sender_of_wrong_length_is_rejected() {
    // 19 bytes
    assert_eq!(decode_sender(&SENDER_HEX[..38]), Err(SearchError::InvalidSender));
    // odd number of digits
    assert_eq!(decode_sender(&SENDER_HEX[..39]), Err(SearchError::InvalidSender));
    // 21 bytes
    let long = format!("{}ff", SENDER_HEX);
    assert_eq!(decode_sender(&long), Err(SearchError::InvalidSender));
    assert_eq!(decode_sender(""), Err(SearchError::InvalidSender));
    assert_eq!(decode_sender("0x"), Err(SearchError::InvalidSender));
}
