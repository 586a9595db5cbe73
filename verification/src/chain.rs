//! Ethereum addresses as Hyperliquid accepts them: EIP-55 checksums and
//! the validation of user and vault addresses.
use vstd::prelude::*;
use vstd::utf8::encode_utf8;
use crate::signature::eip712::keccak256_digest;
use vstd::utf8::{is_ascii_chars, is_ascii_chars_encode_utf8};
use crate::utils::hex::{hex_digit, hex_lower, hex_value, parse_hex_address};

verus! {

/// Whether a string is an EIP-55 checksummed address: `0x` and 40
/// hexadecimal digits naming 20 bytes, in exactly the checksummed form of
/// those bytes.
pub open spec fn is_checksummed_address(s: Seq<char>) -> bool {
    match parse_hex_address(encode_utf8(s)) {
        Some(b) => s == spec_checksum_address(b),
        None => false,
    }
}

/// Calls `alloy::primitives::Address::parse_checksummed` without a chain id
/// and reports whether it accepts the string. Trusted: the call accepts
/// exactly the strings that start with `0x`, parse as an address, and equal
/// that address's checksummed form.
#[verifier::external_body]
fn parse_checksummed_ok(s: &str) -> (ok: bool)
    ensures
        ok == is_checksummed_address(s@),
{
    alloy::primitives::Address::parse_checksummed(s, None).is_ok()
}

/// A valid Hyperliquid user or vault address: 42 bytes starting with `0x`
/// and correctly checksummed.
pub open spec fn spec_is_valid_hyperliquid_address(s: Seq<char>) -> bool {
    let b = encode_utf8(s);
    &&& b.len() == 42
    &&& b[0] == 48u8
    &&& b[1] == 120u8
    &&& is_checksummed_address(s)
}

/// Returns true only if the string is a valid Hyperliquid user/vault address.
pub fn is_valid_hyperliquid_address(s: &str) -> (ok: bool)
    ensures
        ok == spec_is_valid_hyperliquid_address(s@),
{
    let b = s.as_bytes();
    if b.len() < 2 || b[0] != 48 || b[1] != 120 || b.len() != 42 {
        return false;
    }
    parse_checksummed_ok(s)
}

/// A lowercase hexadecimal digit, upper-cased when it is a letter and the
/// matching nibble of the hash is at least 8.
pub open spec fn checksum_char(c: char, nibble: int) -> char {
    if 'a' <= c <= 'f' && nibble >= 8 {
        ((c as int) - 32) as char
    } else {
        c
    }
}

/// The EIP-55 form of a 20-byte address: `0x` and its 40 lowercase hex
/// digits, the `i`-th upper-cased where it is a letter and the `i`-th nibble
/// of the Keccak-256 hash of the lowercase digits is at least 8.
pub open spec fn spec_checksum_address(addr: Seq<u8>) -> Seq<char> {
    let lower = hex_lower(addr);
    let h = keccak256_digest(encode_utf8(lower));
    "0x"@ + Seq::new(
        lower.len(),
        |i: int|
            checksum_char(
                lower[i],
                if i % 2 == 0 {
                    h[i / 2] / 16
                } else {
                    h[i / 2] % 16
                } as int,
            ),
    )
}

/// Calls the `Display` of `alloy::primitives::Address`, which writes the
/// EIP-55 checksummed form without a chain id. Trusted: the text is the
/// checksummed form stated above.
#[verifier::external_body]
pub(crate) fn checksum_address(addr: &[u8]) -> (s: String)
    requires
        addr@.len() == 20,
    ensures
        s@ == spec_checksum_address(addr@),
{
    alloy::primitives::Address::from_slice(addr).to_string()
}

/// A checksummed hexadecimal digit reads back as the nibble it was written for.
proof fn lemma_checksum_digit_value(n: u8, nibble: int)
    requires
        n < 16,
    ensures
        hex_value(checksum_char(hex_digit(n), nibble) as u8) == Some(n),
        '0' <= checksum_char(hex_digit(n), nibble) <= 'f',
{
}

/// The checksummed form of any 20-byte address is a valid Hyperliquid
/// address, and it names those 20 bytes.
pub proof fn lemma_checksummed_form_is_valid(b: Seq<u8>)
    requires
        b.len() == 20,
    ensures
        parse_hex_address(encode_utf8(spec_checksum_address(b))) == Some(b),
        spec_is_valid_hyperliquid_address(spec_checksum_address(b)),
{
    reveal_strlit("0x");
    let lower = hex_lower(b);
    let h = keccak256_digest(encode_utf8(lower));
    let s = spec_checksum_address(b);
    assert(s.len() == 42);
    assert forall|i: int| 0 <= i < 40 implies #[trigger] s[2 + i] == checksum_char(
        lower[i],
        if i % 2 == 0 {
            h[i / 2] / 16
        } else {
            h[i / 2] % 16
        } as int,
    ) by {}
    assert forall|i: int| 0 <= i < s.len() implies '\0' <= #[trigger] s[i] <= '\u{7f}' by {
        if i >= 2 {
            let j = i - 2;
            assert(s[2 + j] == s[i]);
            if j % 2 == 0 {
                lemma_checksum_digit_value(b[j / 2] / 16, (h[j / 2] / 16) as int);
            } else {
                lemma_checksum_digit_value(b[j / 2] % 16, (h[j / 2] % 16) as int);
            }
        }
    }
    assert(is_ascii_chars(s));
    is_ascii_chars_encode_utf8(s);
    let e = encode_utf8(s);
    assert forall|k: int| 0 <= k < 20 implies hex_value(#[trigger] e[2 + 2 * k]) == Some(b[k] / 16) && hex_value(
        e[3 + 2 * k],
    ) == Some(b[k] % 16) by {
        assert(s[2 + 2 * k] as u8 == e[2 + 2 * k]);
        assert(s[3 + 2 * k] as u8 == e[3 + 2 * k]);
        assert(s[2 + (2 * k)] == checksum_char(lower[2 * k], (h[k] / 16) as int));
        assert(s[2 + (2 * k + 1)] == checksum_char(lower[2 * k + 1], (h[k] % 16) as int));
        lemma_checksum_digit_value(b[k] / 16, (h[k] / 16) as int);
        lemma_checksum_digit_value(b[k] % 16, (h[k] % 16) as int);
    }
    assert forall|i: int| 2 <= i < 42 implies (#[trigger] hex_value(e[i])) is Some by {
        let k = (i - 2) / 2;
        if (i - 2) % 2 == 0 {
            assert(i == 2 + 2 * k);
            assert(hex_value(e[2 + 2 * k]) == Some(b[k] / 16));
        } else {
            assert(i == 3 + 2 * k);
            assert(hex_value(e[3 + 2 * k]) == Some(b[k] % 16));
        }
    }
    assert(e[0] == 48u8 && e[1] == 120u8) by {
        assert(s[0] as u8 == e[0]);
        assert(s[1] as u8 == e[1]);
    }
    let parsed = Seq::new(
        20,
        |i: int| (hex_value(e[2 + 2 * i])->0 * 16 + hex_value(e[3 + 2 * i])->0) as u8,
    );
    assert forall|i: int| 0 <= i < 20 implies parsed[i] == b[i] by {
        assert(hex_value(e[2 + 2 * i]) == Some(b[i] / 16));
        assert(hex_value(e[3 + 2 * i]) == Some(b[i] % 16));
    }
    assert(parsed =~= b);
}

} // verus!
