//! Ethereum values the engine reads and writes: 20-byte addresses and the text
//! forms they take.

use vstd::prelude::*;
use crate::text::{all_hex_digits, hex_bytes, hex_text, hex_value};

verus! {

/// A 20-byte account or contract address.
pub type Address = [u8; 20];

/// Whitespace that hexadecimal parsing of fixed-size hashes skips.
pub open spec fn is_hex_space(c: char) -> bool {
    c == ' ' || c == '\r' || c == '\n' || c == '\t'
}

/// The text after an optional lowercase `0x` prefix.
pub open spec fn strip_lower_0x(s: Seq<char>) -> Seq<char> {
    if s.len() >= 2 && s[0] == '0' && s[1] == 'x' {
        s.skip(2)
    } else {
        s
    }
}

/// The address that a text spells: an optional `0x`, then exactly forty
/// hexadecimal digits of either case, with spaces, tabs and line breaks ignored.
pub open spec fn address_of_text(s: Seq<char>) -> Option<Seq<u8>> {
    let digits = strip_lower_0x(s).filter(|c: char| !is_hex_space(c));
    if digits.len() == 40 && all_hex_digits(digits) {
        Some(Seq::new(20, |i: int| (hex_value(digits[2 * i]).unwrap() * 16 + hex_value(digits[2 * i + 1]).unwrap()) as u8))
    } else {
        None
    }
}

/// The `{:?}` text of an address: `0x` and forty lowercase hexadecimal digits.
pub open spec fn address_debug_text(a: Seq<u8>) -> Seq<char> {
    "0x"@ + hex_text(a)
}

/// Parses an address (`ethers::types::Address` `FromStr`); trusted to accept
/// exactly an optional `0x`, then forty hexadecimal digits with whitespace skipped.
#[verifier::external_body]
pub fn parse_address(s: &str) -> (res: Option<Address>)
    ensures
        match res {
            Some(a) => address_of_text(s@) == Some(a@),
            None => address_of_text(s@) is None,
        },
{
    match s.parse::<ethers::types::Address>() {
        Ok(a) => Some(a.0),
        Err(_) => None,
    }
}

/// Formats an address as `{:?}` does for `ethers::types::Address`; trusted to
/// give `0x` and the forty lowercase hexadecimal digits of its bytes.
#[verifier::external_body]
pub fn address_debug(a: &Address) -> (res: String)
    ensures
        res@ == address_debug_text(a@),
{
    format!("{:?}", ethers::types::Address::from(*a))
}

/// The short text an address is displayed by: `0x`, the hexadecimal digits
/// of its first two bytes, an ellipsis, and those of its last two bytes.
pub open spec fn address_display_text(a: Seq<u8>) -> Seq<char> {
    "0x"@ + hex_text(a.take(2)) + "…"@ + hex_text(a.skip(18))
}

/// Formats an address as `Display` does for `ethers::types::Address`
/// (fixed-hash's short form); trusted to give `address_display_text`.
#[verifier::external_body]
pub fn address_display(a: &Address) -> (res: String)
    ensures
        res@ == address_display_text(a@),
{
    ethers::types::Address::from(*a).to_string()
}

/// The text after an optional uppercase `0X` prefix.
pub open spec fn strip_upper_0x(s: Seq<char>) -> Seq<char> {
    if s.len() >= 2 && s[0] == '0' && s[1] == 'X' {
        s.skip(2)
    } else {
        s
    }
}

/// The number that bytes spell, most significant first.
pub open spec fn big_endian_value(b: Seq<u8>) -> nat
    decreases b.len(),
{
    if b.len() == 0 {
        0
    } else {
        big_endian_value(b.drop_last()) * 256 + b.last() as nat
    }
}

/// The order of the secp256k1 group.
pub open spec fn secp256k1_order() -> nat {
    0xFFFFFFFFFFFFFFFFFFFFFFFFFFFFFFFEBAAEDCE6AF48A03BBFD25E8CD0364141nat
}

/// A text that holds a signing key: after an optional `0X`, hexadecimal for
/// 32 bytes whose value is a nonzero number below the group order.
pub open spec fn wallet_key_accepted(s: Seq<char>) -> bool {
    match hex_bytes(strip_upper_0x(s)) {
        Some(b) => b.len() == 32 && 0 < big_endian_value(b) && big_endian_value(b) < secp256k1_order(),
        None => false,
    }
}

/// Whether a text parses as a wallet (`LocalWallet` `FromStr` in ethers):
/// trusted to strip an optional `0X`, hex-decode the rest, want 32 bytes, and
/// accept them as a secp256k1 secret key exactly when their value is nonzero
/// and below the group order.
#[verifier::external_body]
pub fn wallet_key_valid(s: &str) -> (res: bool)
    ensures
        res == wallet_key_accepted(s@),
{
    s.parse::<ethers::signers::LocalWallet>().is_ok()
}

/// The text of the error that parsing a text as an address gives.
pub uninterp spec fn address_error_text(s: Seq<char>) -> Seq<char>;

/// The error of parsing a text as an address (`ethers::types::Address`
/// `FromStr`, its `FromHexError` shown by `Display`); trusted to depend on the
/// text alone where the text is no address.
#[verifier::external_body]
pub fn address_parse_error(s: &str) -> (res: String)
    ensures
        address_of_text(s@) is None ==> res@ == address_error_text(s@),
{
    match s.parse::<ethers::types::Address>() {
        Ok(_) => String::new(),
        Err(e) => e.to_string(),
    }
}

/// The `{:?}` text of the chain that a name gives.
pub uninterp spec fn chain_of_text(s: Seq<char>) -> Option<Seq<char>>;

/// Reads a chain by its name (`ethers::types::Chain` `FromStr`) and gives its
/// `{:?}` text; trusted to depend on the name alone.
#[verifier::external_body]
pub fn parse_chain(s: &str) -> (res: Option<String>)
    ensures
        match res {
            Some(c) => chain_of_text(s@) == Some(c@),
            None => chain_of_text(s@) is None,
        },
{
    match s.parse::<ethers::types::Chain>() {
        Ok(c) => Some(format!("{:?}", c)),
        Err(_) => None,
    }
}

/// The error of reading a chain by a name it does not have: strum's
/// `ParseError::VariantNotFound`, which `Display` shows as
/// `Matching variant not found`.
#[verifier::external_body]
pub fn chain_parse_error(s: &str) -> (res: String)
    ensures
        chain_of_text(s@) is None ==> res@ == "Matching variant not found"@,
{
    match s.parse::<ethers::types::Chain>() {
        Ok(_) => String::new(),
        Err(e) => e.to_string(),
    }
}

/// The address of the wallet a signing key gives.
pub uninterp spec fn key_address(s: Seq<char>) -> Seq<u8>;

/// The address of the wallet a text holds the key of (`LocalWallet`
/// `FromStr`, then `address`); trusted to give one exactly for the texts
/// `wallet_key_valid` accepts, and one that depends on the text alone.
#[verifier::external_body]
pub fn wallet_address_of_key(s: &str) -> (res: Option<Address>)
    ensures
        match res {
            Some(a) => wallet_key_accepted(s@) && a@ == key_address(s@),
            None => !wallet_key_accepted(s@),
        },
{
    match s.parse::<ethers::signers::LocalWallet>() {
        Ok(w) => Some(ethers::signers::Signer::address(&w).0),
        Err(_) => None,
    }
}

/// The text of the error that reading a wallet from a text gives.
pub uninterp spec fn wallet_error_text(s: Seq<char>) -> Seq<char>;

/// The error of reading a wallet from a text that holds no key (`LocalWallet`
/// `FromStr`, its `WalletError` shown by `Display`); trusted to depend on the
/// text alone.
#[verifier::external_body]
pub fn wallet_key_error(s: &str) -> (res: String)
    ensures
        !wallet_key_accepted(s@) ==> res@ == wallet_error_text(s@),
{
    match s.parse::<ethers::signers::LocalWallet>() {
        Ok(_) => String::new(),
        Err(e) => e.to_string(),
    }
}

} // verus!
