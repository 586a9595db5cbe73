//! Byte encodings: big-endian integers, ABI words and strings, and
//! timestamps.
pub mod hex;

use vstd::prelude::*;

verus! {

/// The view of an optional string.
pub open spec fn opt_string_view(o: Option<String>) -> Option<Seq<char>> {
    match o {
        Some(s) => Some(s@),
        None => None,
    }
}

/// The decimal digit `d` (below ten) as a character.
pub open spec fn decimal_digit(d: nat) -> char {
    ((d + 48) as u8) as char
}

/// The decimal notation of `x`: its digits, most significant first, with no
/// leading zero ("0" for zero).
pub open spec fn decimal_text(x: nat) -> Seq<char>
    decreases x,
{
    if x < 10 {
        seq![decimal_digit(x)]
    } else {
        decimal_text(x / 10).push(decimal_digit(x % 10))
    }
}

/// Appends the decimal notation of `x` to `s`.
fn push_decimal(s: &mut String, x: u64)
    ensures
        final(s)@ == old(s)@ + decimal_text(x as nat),
    decreases x,
{
    if x >= 10 {
        push_decimal(s, x / 10);
    }
    let d: u8 = (x % 10) as u8;
    let ghost before = s@;
    crate::utils::hex::push_char(s, (d + 48) as char);
    proof {
        if x >= 10 {
            assert(before == old(s)@ + decimal_text((x / 10) as nat));
            assert(old(s)@ + decimal_text(x as nat) =~= before.push(decimal_digit((x % 10) as nat)));
        } else {
            assert(old(s)@ + decimal_text(x as nat) =~= old(s)@.push(decimal_digit(x as nat)));
        }
    }
}

/// The decimal notation of `x`.
pub fn decimal_string(x: u64) -> (s: String)
    ensures
        s@ == decimal_text(x as nat),
{
    let mut s = String::new();
    push_decimal(&mut s, x);
    assert(Seq::<char>::empty() + decimal_text(x as nat) =~= decimal_text(x as nat));
    s
}

/// Milliseconds since the Unix epoch from a duration split into whole
/// seconds and the sub-second milliseconds; saturates at `u64::MAX`.
pub open spec fn spec_millis_since_epoch(secs: u64, subsec_millis: u32) -> u64 {
    if secs * 1000 + subsec_millis > u64::MAX {
        u64::MAX
    } else {
        (secs * 1000 + subsec_millis) as u64
    }
}

/// The millisecond timestamp of a duration since the Unix epoch, computed
/// with saturating arithmetic.
pub fn millis_since_epoch(secs: u64, subsec_millis: u32) -> (ms: u64)
    ensures
        ms == spec_millis_since_epoch(secs, subsec_millis),
{
    if secs > u64::MAX / 1000 {
        u64::MAX
    } else {
        let scaled = secs * 1000;
        if scaled > u64::MAX - subsec_millis as u64 {
            u64::MAX
        } else {
            scaled + subsec_millis as u64
        }
    }
}

/// The `n` low-order bytes of `x` in big-endian order.
pub open spec fn be_bytes(x: nat, n: nat) -> Seq<u8>
    decreases n,
{
    if n == 0 {
        Seq::empty()
    } else {
        be_bytes(x / 256, (n - 1) as nat).push((x % 256) as u8)
    }
}

/// A 32-byte ABI word holding the unsigned integer `x` (left-padded with zeros).
pub open spec fn abi_word(x: nat) -> Seq<u8> {
    be_bytes(x, 32)
}

pub proof fn lemma_be_bytes_len(x: nat, n: nat)
    ensures
        be_bytes(x, n).len() == n,
    decreases n,
{
    if n > 0 {
        lemma_be_bytes_len(x / 256, (n - 1) as nat);
    }
}

/// Appends the bytes of `s` to `v`.
pub fn append_bytes(v: &mut Vec<u8>, s: &[u8])
    ensures
        final(v)@ == old(v)@ + s@,
{
    let mut i: usize = 0;
    while i < s.len()
        invariant
            i <= s@.len(),
            v@ == old(v)@ + s@.subrange(0, i as int),
        decreases s@.len() - i,
    {
        v.push(s[i]);
        i = i + 1;
        assert(s@.subrange(0, i as int) == s@.subrange(0, (i - 1) as int).push(s@[i - 1]));
    }
    assert(s@.subrange(0, s@.len() as int) == s@);
}

/// The big-endian encoding of `x` in `n` bytes; bytes beyond the width of
/// `u64` are zero.
pub fn u64_to_be_bytes(x: u64, n: usize) -> (out: Vec<u8>)
    ensures
        out@ == be_bytes(x as nat, n as nat),
{
    let mut out: Vec<u8> = Vec::new();
    let mut k: usize = 0;
    while k < n
        invariant
            k <= n,
            out@ == be_bytes(x as nat, k as nat),
        decreases n - k,
    {
        out = prefix_byte(x, k, out);
        k = k + 1;
    }
    out
}

proof fn lemma_be_bytes_shift(x: nat, k: nat)
    ensures
        be_bytes(x, k + 1) == seq![((x / pow256(k)) % 256) as u8] + be_bytes(x, k),
    decreases k,
{
    if k == 0 {
        assert(pow256(0) == 1);
        assert(be_bytes(x / 256, 0) == Seq::<u8>::empty());
        assert(be_bytes(x, 1) == Seq::<u8>::empty().push((x % 256) as u8));
        assert(x / 1 == x);
    } else {
        let km1 = (k - 1) as nat;
        lemma_be_bytes_shift(x / 256, km1);
        lemma_div_div(x, km1);
        assert(be_bytes(x, k + 1) == be_bytes(x / 256, k).push((x % 256) as u8));
        assert(be_bytes(x, k) == be_bytes(x / 256, km1).push((x % 256) as u8));
        assert(be_bytes(x / 256, km1 + 1) == seq![(((x / 256) / pow256(km1)) % 256) as u8] + be_bytes(x / 256, km1));
        assert(seq![((x / pow256(k)) % 256) as u8] + be_bytes(x, k)
            == (seq![((x / pow256(k)) % 256) as u8] + be_bytes(x / 256, km1)).push((x % 256) as u8));
    }
}

/// `256^k`.
pub open spec fn pow256(k: nat) -> nat
    decreases k,
{
    if k == 0 { 1 } else { 256 * pow256((k - 1) as nat) }
}

proof fn lemma_pow256_pos(k: nat)
    ensures
        pow256(k) >= 1,
    decreases k,
{
    if k > 0 {
        lemma_pow256_pos((k - 1) as nat);
    }
}

proof fn lemma_div_div(x: nat, k: nat)
    ensures
        (x / 256) / pow256(k) == x / pow256(k + 1),
{
    lemma_pow256_pos(k);
    assert(pow256(k + 1) == 256 * pow256(k));
    vstd::arithmetic::div_mod::lemma_div_denominator(x as int, 256, pow256(k) as int);
}

/// Puts the next more significant byte of `x` in front of its `k` low bytes.
fn prefix_byte(x: u64, k: usize, rest: Vec<u8>) -> (out: Vec<u8>)
    requires
        rest@ == be_bytes(x as nat, k as nat),
        k < usize::MAX,
    ensures
        out@ == be_bytes(x as nat, (k + 1) as nat),
{
    proof {
        lemma_be_bytes_shift(x as nat, k as nat);
    }
    let b: u8 = if k >= 8 {
        proof {
            lemma_big_power(x as nat, k as nat);
        }
        0
    } else {
        let shifted: u64 = x >> ((8 * k) as u64);
        proof {
            lemma_shift_is_div(x, k as nat);
        }
        (shifted % 256) as u8
    };
    let mut out: Vec<u8> = Vec::new();
    out.push(b);
    append_bytes(&mut out, rest.as_slice());
    assert(out@ == seq![b] + rest@);
    out
}

proof fn lemma_pow256_values(k: nat)
    requires
        k <= 8,
    ensures
        k == 0 ==> pow256(k) == 1,
        k == 1 ==> pow256(k) == 0x100,
        k == 2 ==> pow256(k) == 0x10000,
        k == 3 ==> pow256(k) == 0x1000000,
        k == 4 ==> pow256(k) == 0x100000000,
        k == 5 ==> pow256(k) == 0x10000000000,
        k == 6 ==> pow256(k) == 0x1000000000000,
        k == 7 ==> pow256(k) == 0x100000000000000,
        k == 8 ==> pow256(k) == 0x10000000000000000,
{
    reveal_with_fuel(pow256, 9);
}

proof fn lemma_pow256_mono(a: nat, b: nat)
    requires
        a <= b,
    ensures
        pow256(a) <= pow256(b),
    decreases b,
{
    if a < b {
        lemma_pow256_mono(a, (b - 1) as nat);
        lemma_pow256_pos((b - 1) as nat);
    }
}

proof fn lemma_big_power(x: nat, k: nat)
    requires
        k >= 8,
        x <= u64::MAX,
    ensures
        ((x / pow256(k)) % 256) as u8 == 0,
{
    lemma_pow256_values(8);
    lemma_pow256_mono(8, k);
    assert(x < pow256(k));
    vstd::arithmetic::div_mod::lemma_basic_div(x as int, pow256(k) as int);
}

proof fn lemma_shift_is_div(x: u64, k: nat)
    requires
        k < 8,
    ensures
        x >> ((8 * k) as u64) == x as nat / pow256(k),
{
    lemma_pow256_values(k);
    let s = (8 * k) as u64;
    vstd::bits::lemma_u64_shr_is_div(x, s);
    vstd::arithmetic::power2::lemma2_to64();
    vstd::arithmetic::power2::lemma2_to64_rest();
}

/// The ABI encoding of a `string` in the tail of a tuple: its length as a
/// word, its bytes, and zero padding to a multiple of 32 bytes.
pub open spec fn abi_string_tail(b: Seq<u8>) -> Seq<u8> {
    abi_word(b.len()) + b + Seq::new(((32 - b.len() % 32) % 32) as nat, |i: int| 0u8)
}

/// Appends the ABI tail encoding of the bytes of a string.
pub fn append_abi_string_tail(v: &mut Vec<u8>, b: &[u8])
    ensures
        final(v)@ == old(v)@ + abi_string_tail(b@),
{
    let len_word = u64_to_be_bytes(b.len() as u64, 32);
    append_bytes(v, len_word.as_slice());
    append_bytes(v, b);
    let pad: usize = (32 - b.len() % 32) % 32;
    let ghost before = v@;
    let mut k: usize = 0;
    while k < pad
        invariant
            k <= pad,
            v@ == before + Seq::new(k as nat, |i: int| 0u8),
        decreases pad - k,
    {
        v.push(0u8);
        k = k + 1;
        assert(Seq::new(k as nat, |i: int| 0u8) == Seq::new((k - 1) as nat, |i: int| 0u8).push(0u8));
    }
    assert(abi_string_tail(b@) == abi_word(b@.len()) + b@ + Seq::new(pad as nat, |i: int| 0u8));
}

/// Byte-wise equality of two slices.
pub fn bytes_eq(a: &[u8], b: &[u8]) -> (eq: bool)
    ensures
        eq == (a@ == b@),
{
    if a.len() != b.len() {
        return false;
    }
    let mut i: usize = 0;
    while i < a.len()
        invariant
            i <= a@.len(),
            a@.len() == b@.len(),
            forall|j: int| 0 <= j < i ==> a@[j] == b@[j],
        decreases a@.len() - i,
    {
        if a[i] != b[i] {
            return false;
        }
        i = i + 1;
    }
    assert(a@ == b@);
    true
}

/// Equality of two strings.
pub fn str_eq(a: &str, b: &str) -> (eq: bool)
    ensures
        eq == (a@ == b@),
{
    let r = bytes_eq(a.as_bytes(), b.as_bytes());
    proof {
        vstd::utf8::encode_utf8_decode_utf8(a@);
        vstd::utf8::encode_utf8_decode_utf8(b@);
    }
    r
}

/// Big-endian encodings of equal width are equal only for equal values
/// below `256^n`.
pub proof fn lemma_be_bytes_injective(x: nat, y: nat, n: nat)
    requires
        x < pow256(n),
        y < pow256(n),
        be_bytes(x, n) == be_bytes(y, n),
    ensures
        x == y,
    decreases n,
{
    if n == 0 {
        assert(pow256(0) == 1);
    } else {
        let m = (n - 1) as nat;
        let bx = be_bytes(x, n);
        let by = be_bytes(y, n);
        assert(bx == be_bytes(x / 256, m).push((x % 256) as u8));
        assert(by == be_bytes(y / 256, m).push((y % 256) as u8));
        assert(bx.last() == by.last());
        assert(bx.drop_last() =~= be_bytes(x / 256, m));
        assert(by.drop_last() =~= be_bytes(y / 256, m));
        assert(pow256(n) == 256 * pow256(m));
        lemma_pow256_pos(m);
        assert(x / 256 < pow256(m)) by {
            vstd::arithmetic::div_mod::lemma_div_by_multiple_is_strongly_ordered(
                x as int,
                (256 * pow256(m)) as int,
                pow256(m) as int,
                256,
            );
        }
        assert(y / 256 < pow256(m)) by {
            vstd::arithmetic::div_mod::lemma_div_by_multiple_is_strongly_ordered(
                y as int,
                (256 * pow256(m)) as int,
                pow256(m) as int,
                256,
            );
        }
        lemma_be_bytes_injective(x / 256, y / 256, m);
        vstd::arithmetic::div_mod::lemma_fundamental_div_mod(x as int, 256);
        vstd::arithmetic::div_mod::lemma_fundamental_div_mod(y as int, 256);
    }
}

/// Eight big-endian bytes determine a `u64`.
pub proof fn lemma_u64_be_bytes_injective(x: u64, y: u64)
    requires
        be_bytes(x as nat, 8) == be_bytes(y as nat, 8),
    ensures
        x == y,
{
    lemma_pow256_values(8);
    lemma_be_bytes_injective(x as nat, y as nat, 8);
}

} // verus!
