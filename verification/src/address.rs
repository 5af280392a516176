//! Ethereum account and contract addresses.
use vstd::prelude::*;
use ethers_core::types::Address;
use crate::text::{all_hex_digits, hex_digit_value, strip_hex_prefix};

verus! {

/// A 20-byte Ethereum address, big-endian as written in hex.
#[derive(Clone, Copy, Debug, PartialEq, Eq)]
pub struct EthAddress {
    pub bytes: [u8; 20],
}

/// The characters that the address reader skips wherever they occur.
pub open spec fn is_skipped_space(c: char) -> bool {
    c == ' ' || c == '\r' || c == '\n' || c == '\t'
}

/// The digits the address reader looks at: the text after one optional
/// leading `0x`, without spaces, tabs and line breaks.
pub open spec fn address_digits(s: Seq<char>) -> Seq<char> {
    strip_hex_prefix(s).filter(|c: char| !is_skipped_space(c))
}

/// What `Address::from_str` accepts and yields: exactly 40 hexadecimal digits
/// (either case, spaces and line breaks ignored, one optional `0x` in front),
/// read two by two into 20 bytes.
pub open spec fn address_from_str(s: Seq<char>) -> Option<Seq<u8>> {
    let d = address_digits(s);
    if d.len() == 40 && all_hex_digits(d) {
        Some(
            Seq::new(
                20,
                |i: int| (hex_digit_value(d[2 * i]) * 16 + hex_digit_value(d[2 * i + 1])) as u8,
            ),
        )
    } else {
        None
    }
}

/// The text (`Display`) of the error `Address::from_str` reports for `s`.
pub uninterp spec fn address_parse_error_text(s: Seq<char>) -> Seq<char>;

/// `Address::from_str` (`s.parse::<Address>()`, `FromStr` of `H160`, which
/// reads through `rustc_hex::FromHexIter`). Claimed: it succeeds exactly on the
/// texts `address_from_str` accepts, with those bytes; on failure the error's
/// text is named by `address_parse_error_text`.
#[verifier::external_body]
pub(crate) fn parse_address(s: &str) -> (r: Result<EthAddress, String>)
    ensures
        r is Ok <==> address_from_str(s@) is Some,
        r matches Ok(a) ==> address_from_str(s@) == Some(a.bytes@),
        r matches Err(m) ==> m@ == address_parse_error_text(s@),
{
    match s.parse::<Address>() {
        Ok(a) => Ok(EthAddress { bytes: a.0 }),
        Err(e) => Err(e.to_string()),
    }
}

} // verus!
