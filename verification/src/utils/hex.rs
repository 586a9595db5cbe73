//! Hexadecimal digits, numerals and addresses.
use vstd::prelude::*;
use vstd::utf8::{encode_utf8, is_ascii_chars, is_ascii_chars_encode_utf8};

verus! {

/// The value of an ASCII hexadecimal digit (either case).
pub open spec fn hex_value(b: u8) -> Option<u8> {
    if 48 <= b <= 57 {
        Some((b - 48) as u8)
    } else if 97 <= b <= 102 {
        Some((b - 87) as u8)
    } else if 65 <= b <= 70 {
        Some((b - 55) as u8)
    } else {
        None
    }
}

/// The lowercase hexadecimal digit for a nibble.
pub open spec fn hex_digit(n: u8) -> char {
    if n < 10 {
        ((n + 48) as u8) as char
    } else {
        ((n + 87) as u8) as char
    }
}

/// Two lowercase hexadecimal digits per byte, most significant first.
pub open spec fn hex_lower(b: Seq<u8>) -> Seq<char> {
    Seq::new(
        2 * b.len(),
        |i: int|
            if i % 2 == 0 {
                hex_digit(b[i / 2] / 16)
            } else {
                hex_digit(b[i / 2] % 16)
            },
    )
}

/// Drops leading `'0'` digits, keeping at least one digit.
pub open spec fn strip_leading_zeros(s: Seq<char>) -> Seq<char>
    decreases s.len(),
{
    if s.len() > 1 && s[0] == '0' {
        strip_leading_zeros(s.drop_first())
    } else {
        s
    }
}

/// The lowercase hexadecimal numeral of a big-endian unsigned integer,
/// without leading zeros (as `{:x}` formats a `U256`).
pub open spec fn hex_numeral(b: Seq<u8>) -> Seq<char> {
    strip_leading_zeros(hex_lower(b))
}

/// Parses `0x` followed by exactly 40 hexadecimal digits into the 20 bytes of an address.
pub open spec fn parse_hex_address(s: Seq<u8>) -> Option<Seq<u8>> {
    if s.len() == 42 && s[0] == 48u8 && s[1] == 120u8 && (forall|i: int|
        2 <= i < 42 ==> (#[trigger] hex_value(s[i])) is Some) {
        Some(
            Seq::new(
                20,
                |i: int| (hex_value(s[2 + 2 * i])->0 * 16 + hex_value(s[3 + 2 * i])->0) as u8,
            ),
        )
    } else {
        None
    }
}

/// Appends a character to a string.
#[verifier::external_body]
pub(crate) fn push_char(s: &mut String, c: char)
    ensures
        final(s)@ == old(s)@.push(c),
{
    s.push(c);
}

pub fn hex_value_of(b: u8) -> (v: Option<u8>)
    ensures
        v == hex_value(b),
{
    if 48 <= b && b <= 57 {
        Some(b - 48)
    } else if 97 <= b && b <= 102 {
        Some(b - 87)
    } else if 65 <= b && b <= 70 {
        Some(b - 55)
    } else {
        None
    }
}

pub fn hex_digit_of(n: u8) -> (c: char)
    requires
        n < 16,
    ensures
        c == hex_digit(n),
{
    if n < 10 {
        (n + 48) as char
    } else {
        (n + 87) as char
    }
}

/// The digits of `hex_lower(b)` as a vector.
fn hex_chars(b: &[u8]) -> (out: Vec<char>)
    requires
        b@.len() < 0x4000_0000,
    ensures
        out@ == hex_lower(b@),
{
    let mut out: Vec<char> = Vec::new();
    let mut i: usize = 0;
    while i < b.len()
        invariant
            i <= b@.len(),
            b@.len() < 0x4000_0000,
            out@ == hex_lower(b@.subrange(0, i as int)),
        decreases b@.len() - i,
    {
        let byte = b[i];
        let hi = hex_digit_of(byte / 16);
        let lo = hex_digit_of(byte % 16);
        let ghost prev = out@;
        out.push(hi);
        out.push(lo);
        i = i + 1;
        assert(out@ == hex_lower(b@.subrange(0, i as int))) by {
            let sub = b@.subrange(0, i as int);
            assert forall|j: int| 0 <= j < out@.len() implies out@[j] == hex_lower(sub)[j] by {
                if j < prev.len() {
                    assert(b@.subrange(0, (i - 1) as int)[j / 2] == sub[j / 2]);
                }
            }
        }
    }
    assert(b@.subrange(0, b@.len() as int) == b@);
    out
}

proof fn lemma_strip_from(s: Seq<char>, k: int)
    requires
        0 <= k < s.len(),
        forall|j: int| 0 <= j < k ==> s[j] == '0',
        k == s.len() - 1 || s[k] != '0',
    ensures
        strip_leading_zeros(s) == s.subrange(k, s.len() as int),
    decreases k,
{
    if k == 0 {
        assert(s.subrange(0, s.len() as int) == s);
    } else {
        assert(s.len() > 1 && s[0] == '0');
        let t = s.drop_first();
        assert forall|j: int| 0 <= j < k - 1 implies t[j] == '0' by {
            assert(t[j] == s[j + 1]);
        }
        lemma_strip_from(t, k - 1);
        assert(t.subrange(k - 1, t.len() as int) == s.subrange(k, s.len() as int));
    }
}

/// `0x` followed by the lowercase hexadecimal numeral, without leading zeros,
/// of the big-endian unsigned integer `b`.
pub fn format_hex_numeral(b: &[u8]) -> (out: String)
    requires
        0 < b@.len() < 0x4000_0000,
    ensures
        out@ == "0x"@ + hex_numeral(b@),
{
    let digits = hex_chars(b);
    let n = digits.len();
    let mut k: usize = 0;
    while k + 1 < n && digits[k] == '0'
        invariant
            n == digits@.len(),
            n >= 2,
            k < n,
            forall|j: int| 0 <= j < k ==> digits@[j] == '0',
        decreases n - k,
    {
        k = k + 1;
    }
    proof {
        lemma_strip_from(digits@, k as int);
    }
    let mut out = String::from_str("0x");
    proof {
        reveal_strlit("0x");
    }
    let mut i: usize = k;
    while i < n
        invariant
            k <= i <= n,
            n == digits@.len(),
            out@ == "0x"@ + digits@.subrange(k as int, i as int),
        decreases n - i,
    {
        push_char(&mut out, digits[i]);
        i = i + 1;
        assert(digits@.subrange(k as int, i as int) == digits@.subrange(k as int, (i - 1) as int).push(digits@[i - 1]));
    }
    out
}

/// A chain id as `0x` followed by its lowercase hexadecimal digits, without
/// leading zeros (`0x0` for zero).
pub fn chain_id_hex(chain_id: u64) -> (s: String)
    ensures
        s@ == "0x"@ + hex_numeral(crate::utils::be_bytes(chain_id as nat, 8)),
{
    let bytes = crate::utils::u64_to_be_bytes(chain_id, 8);
    proof {
        crate::utils::lemma_be_bytes_len(chain_id as nat, 8);
    }
    format_hex_numeral(bytes.as_slice())
}

/// `0x` followed by two lowercase hexadecimal digits per byte.
pub fn format_hex_bytes(b: &[u8]) -> (out: String)
    requires
        b@.len() < 0x4000_0000,
    ensures
        out@ == "0x"@ + hex_lower(b@),
{
    let digits = hex_chars(b);
    let mut out = String::from_str("0x");
    let mut i: usize = 0;
    while i < digits.len()
        invariant
            i <= digits@.len(),
            out@ == "0x"@ + digits@.subrange(0, i as int),
        decreases digits@.len() - i,
    {
        push_char(&mut out, digits[i]);
        i = i + 1;
        assert(digits@.subrange(0, i as int) == digits@.subrange(0, (i - 1) as int).push(digits@[i - 1]));
    }
    assert(digits@.subrange(0, digits@.len() as int) == digits@);
    out
}

/// Decodes `0x` followed by 40 hexadecimal digits into 20 bytes.
pub fn parse_address_bytes(s: &[u8]) -> (out: Option<Vec<u8>>)
    ensures
        match out {
            Some(v) => parse_hex_address(s@) == Some(v@),
            None => parse_hex_address(s@) is None,
        },
{
    if s.len() != 42 || s[0] != 48 || s[1] != 120 {
        return None;
    }
    let mut out: Vec<u8> = Vec::new();
    let mut i: usize = 0;
    while i < 20
        invariant
            i <= 20,
            s@.len() == 42,
            out@.len() == i,
            forall|j: int| 2 <= j < 2 + 2 * i ==> (#[trigger] hex_value(s@[j])) is Some,
            forall|j: int|
                0 <= j < i ==> #[trigger] out@[j] == (hex_value(s@[2 + 2 * j])->0 * 16 + hex_value(
                    s@[3 + 2 * j],
                )->0) as u8,
        decreases 20 - i,
    {
        let hi = hex_value_of(s[2 + 2 * i]);
        let lo = hex_value_of(s[3 + 2 * i]);
        match (hi, lo) {
            (Some(h), Some(l)) => {
                out.push(h * 16 + l);
            },
            _ => {
                assert(!(forall|j: int| 2 <= j < 42 ==> (#[trigger] hex_value(s@[j])) is Some)) by {
                    if hi is None {
                        assert(hex_value(s@[2 + 2 * i]) is None);
                    } else {
                        assert(hex_value(s@[3 + 2 * i]) is None);
                    }
                }
                return None;
            },
        }
        i = i + 1;
    }
    assert(out@ == parse_hex_address(s@)->0);
    Some(out)
}

/// A hexadecimal digit reads back as the nibble it was written for.
proof fn lemma_hex_digit_value(n: u8)
    requires
        n < 16,
    ensures
        hex_value(hex_digit(n) as u8) == Some(n),
        '0' <= hex_digit(n) <= 'f',
{
}

/// A 20-byte address written as `0x` and its lowercase hexadecimal digits
/// parses back to the same bytes.
pub proof fn lemma_address_hex_round_trip(b: Seq<u8>)
    requires
        b.len() == 20,
    ensures
        parse_hex_address(encode_utf8("0x"@ + hex_lower(b))) == Some(b),
{
    reveal_strlit("0x");
    let s = "0x"@ + hex_lower(b);
    assert forall|i: int| 0 <= i < s.len() implies '\0' <= #[trigger] s[i] <= '\u{7f}' by {
        if i >= 2 {
            let j = i - 2;
            if j % 2 == 0 {
                lemma_hex_digit_value(b[j / 2] / 16);
            } else {
                lemma_hex_digit_value(b[j / 2] % 16);
            }
        }
    }
    assert(is_ascii_chars(s));
    is_ascii_chars_encode_utf8(s);
    let e = encode_utf8(s);
    assert forall|i: int| 0 <= i < 20 implies hex_value(#[trigger] e[2 + 2 * i]) == Some(b[i] / 16) && hex_value(
        e[3 + 2 * i],
    ) == Some(b[i] % 16) by {
        assert(s[2 + 2 * i] == hex_digit(b[i] / 16));
        assert(s[3 + 2 * i] == hex_digit(b[i] % 16));
        assert(s[2 + 2 * i] as u8 == e[2 + 2 * i]);
        assert(s[3 + 2 * i] as u8 == e[3 + 2 * i]);
        lemma_hex_digit_value(b[i] / 16);
        lemma_hex_digit_value(b[i] % 16);
    }
    assert forall|i: int| 2 <= i < 42 implies (#[trigger] hex_value(e[i])) is Some by {
        let k = (i - 2) / 2;
        if (i - 2) % 2 == 0 {
            assert(i == 2 + 2 * k);
            assert(hex_value(e[2 + 2 * k]) == Some(b[k] / 16));
        } else {
            assert(i == 3 + 2 * k);
            assert(hex_value(e[3 + 2 * k]) == Some(b[k] % 16));
        }
    }
    assert(e[0] == 48u8 && e[1] == 120u8) by {
        assert(s[0] as u8 == e[0]);
        assert(s[1] as u8 == e[1]);
    }
    let parsed = Seq::new(
        20,
        |i: int| (hex_value(e[2 + 2 * i])->0 * 16 + hex_value(e[3 + 2 * i])->0) as u8,
    );
    assert forall|i: int| 0 <= i < 20 implies parsed[i] == b[i] by {
        assert(hex_value(e[2 + 2 * i]) == Some(b[i] / 16));
        assert(hex_value(e[3 + 2 * i]) == Some(b[i] % 16));
    }
    assert(parsed =~= b);
}

} // verus!
