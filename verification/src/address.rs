//! Wallet addresses: 20 bytes, read from their hexadecimal text.
use vstd::prelude::*;
use alloy::primitives::Address;
use crate::error::ServiceError;

verus! {

/// The value of a hexadecimal digit, either case; `None` for any other character.
pub open spec fn hex_digit(c: char) -> Option<nat> {
    if '0' <= c <= '9' {
        Some((c as nat - '0' as nat) as nat)
    } else if 'a' <= c <= 'f' {
        Some((c as nat - 'a' as nat + 10) as nat)
    } else if 'A' <= c <= 'F' {
        Some((c as nat - 'A' as nat + 10) as nat)
    } else {
        None
    }
}

/// The text without a leading `0x` or `0X`.
pub open spec fn strip_hex_prefix(s: Seq<char>) -> Seq<char> {
    if s.len() >= 2 && s[0] == '0' && (s[1] == 'x' || s[1] == 'X') {
        s.subrange(2, s.len() as int)
    } else {
        s
    }
}

/// Whether `s` is the text of an address: an optional `0x`/`0X` prefix, then
/// exactly forty hexadecimal digits.
pub open spec fn is_address_text(s: Seq<char>) -> bool {
    let h = strip_hex_prefix(s);
    &&& h.len() == 40
    &&& forall|i: int| 0 <= i < 40 ==> (#[trigger] hex_digit(h[i])) is Some
}

/// The twenty bytes that address text spells, two digits per byte, high digit first.
pub open spec fn address_text_bytes(s: Seq<char>) -> Seq<u8> {
    let h = strip_hex_prefix(s);
    Seq::new(
        20,
        |i: int| (hex_digit(h[2 * i]).unwrap() * 16 + hex_digit(h[2 * i + 1]).unwrap()) as u8,
    )
}

/// A 20-byte account address.
#[derive(Clone, Copy, Debug)]
pub struct WalletAddress {
    bytes: [u8; 20],
}

impl View for WalletAddress {
    type V = Seq<u8>;

    closed spec fn view(&self) -> Seq<u8> {
        self.bytes@
    }
}

impl WalletAddress {
    /// The address with these bytes.
    pub fn from_bytes(bytes: [u8; 20]) -> (r: WalletAddress)
        ensures
            r@ == bytes@,
    {
        WalletAddress { bytes }
    }

    /// The bytes of the address.
    pub fn bytes(&self) -> (r: [u8; 20])
        ensures
            r@ == self@,
    {
        self.bytes
    }
}

/// `str::parse::<alloy::primitives::Address>`: accepts an optional `0x`/`0X`
/// prefix followed by exactly forty hexadecimal digits of either case (no
/// checksum test) and decodes them two digits per byte.
#[verifier::external_body]
fn address_from_str(s: &str) -> (r: Option<[u8; 20]>)
    ensures
        r is Some <==> is_address_text(s@),
        r matches Some(b) ==> b@ == address_text_bytes(s@),
{
    match s.parse::<Address>() {
        Ok(a) => Some(a.into_array()),
        Err(_) => None,
    }
}

/// Reads a wallet address from its text; a text that is no address is a bad
/// request ("Invalid wallet address").
pub fn parse_wallet_address(s: &str) -> (r: Result<WalletAddress, ServiceError>)
    ensures
        r is Ok <==> is_address_text(s@),
        r matches Ok(a) ==> a@ == address_text_bytes(s@),
        r matches Err(e) ==> e.is_bad_request("Invalid wallet address"@),
{
    match address_from_str(s) {
        Some(bytes) => Ok(WalletAddress { bytes }),
        None => Err(ServiceError::invalid_wallet_address()),
    }
}

} // verus!
