use gas_donator::address::parse_wallet_address;
use gas_donator::error::ServiceError;

const TEXT: &str = "0x00112233445566778899aAbBcCdDeEfF01234567";
const BYTES: [u8; 20] = [
    0x00, 0x11, 0x22, 0x33, 0x44, 0x55, 0x66, 0x77, 0x88, 0x99, 0xaa, 0xbb, 0xcc, 0xdd, 0xee, 0xff,
    0x01, 0x23, 0x45, 0x67,
];

fn is_invalid_address(e: &ServiceError) -> bool {
    matches!(e, ServiceError::BadRequest(m) if m == "Invalid wallet address")
}

#[test]
fn parses_prefixed_mixed_case_hex() {
    let a = parse_wallet_address(TEXT).unwrap();
    assert_eq!(a.bytes(), BYTES);
}

#[test]
fn parses_without_prefix_and_with_upper_prefix() {
    let bare = parse_wallet_address(&TEXT[2..]).unwrap();
    assert_eq!(bare.bytes(), BYTES);
    let upper = format!("0X{}", &TEXT[2..]);
    assert_eq!(parse_wallet_address(&upper).unwrap().bytes(), BYTES);
}

#[test]
fn rejects_wrong_length() {
    let e = parse_wallet_address("0x1234").unwrap_err();
    assert!(is_invalid_address(&e));
    let long = format!("{}00", TEXT);
    assert!(is_invalid_address(&parse_wallet_address(&long).unwrap_err()));
}

#[test]
fn rejects_non_hex_digit() {
    let bad = "0x00112233445566778899aabbccddeeff0123456g";
    assert!(is_invalid_address(&parse_wallet_address(bad).unwrap_err()));
    assert!(is_invalid_address(&parse_wallet_address("").unwrap_err()));
}
