//! Request payloads as JSON objects of scalar fields, and request validation.
use vstd::prelude::*;
use vstd::std_specs::iter::IteratorSpec;
use crate::types::decimal::{decimal_parse, decimal_round_dp_text, parse_decimal, DecimalValue};

verus! {

/// A scalar JSON value.
#[derive(Debug, Clone)]
pub enum JsonScalar {
    Null,
    Bool(bool),
    Number(u64),
    Str(String),
}

/// The mathematical view of a scalar JSON value.
pub enum JsonScalarV {
    Null,
    Bool(bool),
    Number(u64),
    Str(Seq<char>),
}

impl View for JsonScalar {
    type V = JsonScalarV;

    open spec fn view(&self) -> JsonScalarV {
        match self {
            JsonScalar::Null => JsonScalarV::Null,
            JsonScalar::Bool(b) => JsonScalarV::Bool(*b),
            JsonScalar::Number(n) => JsonScalarV::Number(*n),
            JsonScalar::Str(s) => JsonScalarV::Str(s@),
        }
    }
}

/// The view of the fields of a JSON object of scalars.
pub open spec fn scalar_fields_view(fields: Seq<(String, JsonScalar)>) -> Seq<(Seq<char>, JsonScalarV)> {
    fields.map_values(|p: (String, JsonScalar)| (p.0@, p.1@))
}

/// A JSON value of a request payload: a scalar or an object of scalars.
#[derive(Debug, Clone)]
pub enum JsonValue {
    Null,
    Bool(bool),
    Number(u64),
    Str(String),
    Object(Vec<(String, JsonScalar)>),
}

/// The mathematical view of a JSON value.
pub enum JsonValueV {
    Null,
    Bool(bool),
    Number(u64),
    Str(Seq<char>),
    Object(Seq<(Seq<char>, JsonScalarV)>),
}

impl View for JsonValue {
    type V = JsonValueV;

    open spec fn view(&self) -> JsonValueV {
        match self {
            JsonValue::Null => JsonValueV::Null,
            JsonValue::Bool(b) => JsonValueV::Bool(*b),
            JsonValue::Number(n) => JsonValueV::Number(*n),
            JsonValue::Str(s) => JsonValueV::Str(s@),
            JsonValue::Object(fields) => JsonValueV::Object(scalar_fields_view(fields@)),
        }
    }
}

/// A JSON object: named scalar fields in order of insertion.
#[derive(Debug, Clone)]
pub struct JsonObject {
    pub fields: Vec<(String, JsonValue)>,
}

impl View for JsonObject {
    type V = Seq<(Seq<char>, JsonValueV)>;

    open spec fn view(&self) -> Self::V {
        self.fields@.map_values(|p: (String, JsonValue)| (p.0@, p.1@))
    }
}

impl JsonObject {
    pub fn new() -> (o: JsonObject)
        ensures
            o@ == Seq::<(Seq<char>, JsonValueV)>::empty(),
    {
        JsonObject { fields: Vec::new() }
    }

    /// Appends a field.
    pub fn push(&mut self, key: &str, value: JsonValue)
        ensures
            final(self)@ == old(self)@.push((key@, value@)),
    {
        let k = String::from_str(key);
        self.fields.push((k, value));
        assert(self@ == old(self)@.push((key@, value@)));
    }

    /// Appends a string field.
    pub fn push_str(&mut self, key: &str, value: &str)
        ensures
            final(self)@ == old(self)@.push((key@, JsonValueV::Str(value@))),
    {
        self.push(key, JsonValue::Str(String::from_str(value)));
    }

    /// Appends a numeric field.
    pub fn push_number(&mut self, key: &str, value: u64)
        ensures
            final(self)@ == old(self)@.push((key@, JsonValueV::Number(value))),
    {
        self.push(key, JsonValue::Number(value));
    }

    /// Appends a boolean field.
    pub fn push_bool(&mut self, key: &str, value: bool)
        ensures
            final(self)@ == old(self)@.push((key@, JsonValueV::Bool(value))),
    {
        self.push(key, JsonValue::Bool(value));
    }
}

/// The object `{"type": t}`.
pub fn typed_object(t: &str) -> (o: JsonObject)
    ensures
        o@ == seq![("type"@, JsonValueV::Str(t@))],
{
    let mut o = JsonObject::new();
    o.push_str("type", t);
    o
}

/// Hyperliquid supported time intervals for interval based requests.
pub open spec fn supported_intervals() -> Seq<Seq<char>> {
    seq![
        "1m"@, "3m"@, "5m"@, "15m"@, "30m"@, "1h"@, "2h"@, "4h"@, "8h"@, "12h"@, "1d"@, "3d"@,
        "1w"@, "1M"@,
    ]
}

/// The supported intervals, in order.
pub fn supported_interval_list() -> (v: Vec<&'static str>)
    ensures
        v@.len() == supported_intervals().len(),
        forall|i: int| 0 <= i < v@.len() ==> (#[trigger] v@[i])@ == supported_intervals()[i],
{
    let v: Vec<&'static str> = vec!["1m", "3m", "5m", "15m", "30m", "1h", "2h", "4h", "8h", "12h", "1d", "3d", "1w", "1M"];
    v
}

/// Whether `s` is one of the supported intervals.
pub fn is_supported_interval(s: &str) -> (b: bool)
    ensures
        b == supported_intervals().contains(s@),
{
    let list = supported_interval_list();
    let mut i: usize = 0;
    while i < list.len()
        invariant
            i <= list@.len(),
            list@.len() == supported_intervals().len(),
            forall|j: int| 0 <= j < list@.len() ==> (#[trigger] list@[j])@ == supported_intervals()[j],
            forall|j: int| 0 <= j < i ==> supported_intervals()[j] != s@,
        decreases list@.len() - i,
    {
        if crate::utils::str_eq(list[i], s) {
            assert(supported_intervals()[i as int] == s@);
            return true;
        }
        i = i + 1;
    }
    false
}

/// Helper for creating `InvalidRequestParameter` errors.
pub fn err_request_invalid_hyperliquid_address(
    method: String,
    parameter: String,
    reason: String,
) -> (e: crate::error::HyperliquidError)
    ensures
        e == (crate::error::HyperliquidError::InvalidRequestParameter { method, parameter, reason }),
{
    crate::error::HyperliquidError::InvalidRequestParameter { method, parameter, reason }
}

/// `s` without its trailing `c`s.
pub open spec fn trim_end(s: Seq<char>, c: char) -> Seq<char>
    decreases s.len(),
{
    if s.len() > 0 && s.last() == c {
        trim_end(s.drop_last(), c)
    } else {
        s
    }
}

/// A formatted decimal without trailing zeros and then without trailing
/// dots; `0` when nothing is left.
pub open spec fn spec_trim_decimal(s: Seq<char>) -> Seq<char> {
    let t = trim_end(trim_end(s, '0'), '.');
    if t.len() == 0 {
        "0"@
    } else {
        t
    }
}

/// Trimming leaves no trailing `c`.
proof fn lemma_trim_end_last(s: Seq<char>, c: char)
    ensures
        trim_end(s, c).len() <= s.len(),
        trim_end(s, c).len() > 0 ==> trim_end(s, c).last() != c,
    decreases s.len(),
{
    if s.len() > 0 && s.last() == c {
        lemma_trim_end_last(s.drop_last(), c);
    }
}

/// A normalized decimal is never empty and never ends with a dot.
pub proof fn lemma_trim_decimal_shape(s: Seq<char>)
    ensures
        spec_trim_decimal(s).len() > 0,
        spec_trim_decimal(s).last() != '.',
{
    reveal_strlit("0");
    lemma_trim_end_last(trim_end(s, '0'), '.');
}

/// The characters of a string.
pub(crate) fn chars_of(s: &str) -> (v: Vec<char>)
    ensures
        v@ == s@,
{
    broadcast use vstd::string::axiom_spec_iter, vstd::string::next_postcondition;

    let mut it = s.chars();
    let mut v: Vec<char> = Vec::new();
    loop
        invariant
            v@ + it.remaining() == s@,
            it.obeys_prophetic_iter_laws(),
        decreases s@.len() - v@.len(),
    {
        let ghost before = it.remaining();
        match it.next() {
            Some(c) => {
                assert(before == seq![c] + it.remaining());
                assert(v@.push(c) + it.remaining() =~= v@ + before);
                v.push(c);
            },
            None => {
                assert(v@ + Seq::<char>::empty() =~= v@);
                return v;
            },
        }
    }
}

/// The length of `s[..k]` once trailing `c`s are dropped.
fn trimmed_len(chars: &Vec<char>, k: usize, c: char) -> (n: usize)
    requires
        k <= chars@.len(),
    ensures
        n <= k,
        chars@.take(n as int) == trim_end(chars@.take(k as int), c),
{
    let mut n = k;
    while n > 0 && chars[n - 1] == c
        invariant
            n <= k <= chars@.len(),
            trim_end(chars@.take(n as int), c) == trim_end(chars@.take(k as int), c),
        decreases n,
    {
        assert(chars@.take(n as int).drop_last() =~= chars@.take(n - 1));
        n = n - 1;
    }
    n
}

/// Drops the trailing zeros, then the trailing dots, of a formatted decimal;
/// gives `0` when nothing is left.
pub fn trim_decimal(formatted: &str) -> (out: String)
    ensures
        out@ == spec_trim_decimal(formatted@),
{
    let chars = chars_of(formatted);
    assert(chars@.take(chars@.len() as int) =~= chars@);
    let k1 = trimmed_len(&chars, chars.len(), '0');
    let k2 = trimmed_len(&chars, k1, '.');
    if k2 == 0 {
        proof {
            reveal_strlit("0");
        }
        return String::from_str("0");
    }
    let mut out = String::new();
    let mut i: usize = 0;
    while i < k2
        invariant
            i <= k2 <= chars@.len(),
            out@ == chars@.take(i as int),
        decreases k2 - i,
    {
        assert(chars@.take(i + 1) =~= chars@.take(i as int).push(chars@[i as int]));
        crate::utils::hex::push_char(&mut out, chars[i]);
        i = i + 1;
    }
    out
}

/// A decimal text without the zeros that end its fraction, and then without
/// a dot left at its end; a text with no dot has no fraction and is kept.
pub open spec fn spec_trim_fraction(t: Seq<char>) -> Seq<char> {
    if t.contains('.') {
        spec_trim_decimal(t)
    } else {
        t
    }
}

/// The normal form of a decimal text: read as a `rust_decimal` decimal,
/// rounded to eight fractional digits, written out, and stripped of the zeros
/// that end its fraction. A text that is not a decimal is kept as it is.
pub open spec fn spec_normalize_decimal(s: Seq<char>) -> Seq<char> {
    match decimal_parse(s) {
        Some((m, e)) => spec_trim_fraction(decimal_round_dp_text(m, e, 8)),
        None => s,
    }
}

/// Whether a text holds a dot.
fn has_dot(text: &str) -> (b: bool)
    ensures
        b == text@.contains('.'),
{
    let chars = chars_of(text);
    let mut i: usize = 0;
    while i < chars.len()
        invariant
            i <= chars@.len(),
            chars@ == text@,
            forall|j: int| 0 <= j < i ==> chars@[j] != '.',
        decreases chars@.len() - i,
    {
        if chars[i] == '.' {
            return true;
        }
        i = i + 1;
    }
    false
}

/// Parses and normalizes a text representing a decimal: rounds it to eight
/// fractional digits and removes the trailing zeros of its fraction. A text
/// that is not a decimal is returned unchanged.
pub fn normalize_decimal(s: &str) -> (out: String)
    ensures
        out@ == spec_normalize_decimal(s@),
{
    match parse_decimal(s) {
        Some((m, e)) => match DecimalValue::new(m, e) {
            Some(d) => {
                let text = d.round_dp_text(8);
                if has_dot(text.as_str()) {
                    trim_decimal(text.as_str())
                } else {
                    text
                }
            },
            None => String::from_str(s),
        },
        None => String::from_str(s),
    }
}

} // verus!
