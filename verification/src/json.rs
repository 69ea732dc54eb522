//! A plain model of JSON documents and the field lookups the extractors
//! make on platform payloads.
//!
//! Lookups follow `serde_json`'s indexing: asking an object for a missing
//! key, a non-object for a key, or an array for an index out of range gives
//! nothing, which the extractors treat like `null`.
use vstd::prelude::*;

verus! {

/// A JSON number, as far as the library reads it: its value when it is a
/// non-negative integer that fits in a `u64`.
#[derive(Debug, Clone, Copy, PartialEq, Eq)]
pub struct JsonNumber {
    pub unsigned: Option<u64>,
}

/// A JSON document.
#[derive(Debug)]
pub enum JsonValue {
    Null,
    Bool(bool),
    Number(JsonNumber),
    String(String),
    Array(Vec<JsonValue>),
    Object(Vec<(String, JsonValue)>),
}

/// The value of the first entry named `key` among `entries`.
pub open spec fn entry_value(entries: Seq<(String, JsonValue)>, key: Seq<char>) -> Option<JsonValue>
    decreases entries.len(),
{
    if entries.len() == 0 {
        None
    } else if entries[0].0@ == key {
        Some(entries[0].1)
    } else {
        entry_value(entries.drop_first(), key)
    }
}

/// `v[key]`: the field `key` of an object.
pub open spec fn field(v: Option<JsonValue>, key: Seq<char>) -> Option<JsonValue> {
    match v {
        Some(JsonValue::Object(entries)) => entry_value(entries@, key),
        _ => None,
    }
}

/// `v[i]`: the element `i` of an array.
pub open spec fn element(v: Option<JsonValue>, i: int) -> Option<JsonValue> {
    match v {
        Some(JsonValue::Array(items)) => if 0 <= i < items@.len() {
            Some(items@[i])
        } else {
            None
        },
        _ => None,
    }
}

/// `v.as_str()`: the text of a string.
pub open spec fn text(v: Option<JsonValue>) -> Option<Seq<char>> {
    match v {
        Some(JsonValue::String(s)) => Some(s@),
        _ => None,
    }
}

/// `v.as_u64()`: the value of a non-negative integer.
pub open spec fn unsigned(v: Option<JsonValue>) -> Option<u64> {
    match v {
        Some(JsonValue::Number(n)) => n.unsigned,
        _ => None,
    }
}

/// `v.as_array()`: the elements of an array.
pub open spec fn items(v: Option<JsonValue>) -> Option<Seq<JsonValue>> {
    match v {
        Some(JsonValue::Array(items)) => Some(items@),
        _ => None,
    }
}

/// `v.is_object()`.
pub open spec fn is_object(v: Option<JsonValue>) -> bool {
    v matches Some(JsonValue::Object(_))
}

/// The text of a string, or `default`.
pub open spec fn text_or(v: Option<JsonValue>, default: Seq<char>) -> Seq<char> {
    match text(v) {
        Some(s) => s,
        None => default,
    }
}

/// The value of a non-negative integer, or 0.
pub open spec fn unsigned_or_zero(v: Option<JsonValue>) -> u64 {
    match unsigned(v) {
        Some(n) => n,
        None => 0,
    }
}

/// `v[key]` (see [`field`]).
pub fn get<'a>(v: Option<&'a JsonValue>, key: &str) -> (r: Option<&'a JsonValue>)
    ensures
        deref(r) == field(deref(v), key@),
{
    match v {
        Some(JsonValue::Object(entries)) => {
            let mut i: usize = 0;
            let ghost all = entries@;
            assert(all.skip(0) =~= all);
            while i < entries.len()
                invariant
                    i <= entries@.len(),
                    all == entries@,
                    field(deref(v), key@) == entry_value(all, key@),
                    entry_value(all, key@) == entry_value(all.skip(i as int), key@),
                decreases entries.len() - i,
            {
                assert(all.skip(i as int).drop_first() =~= all.skip(i + 1));
                if crate::text::str_eq(entries[i].0.as_str(), key) {
                    assert(all.skip(i as int)[0] == all[i as int]);
                    return Some(&entries[i].1);
                }
                i = i + 1;
            }
            assert(all.skip(i as int).len() == 0);
            None
        },
        _ => None,
    }
}

/// `v[i]` (see [`element`]).
pub fn at<'a>(v: Option<&'a JsonValue>, i: usize) -> (r: Option<&'a JsonValue>)
    ensures
        deref(r) == element(deref(v), i as int),
{
    match v {
        Some(JsonValue::Array(items)) => {
            if i < items.len() {
                Some(&items[i])
            } else {
                None
            }
        },
        _ => None,
    }
}

/// The optional reference as an optional value.
pub open spec fn deref(v: Option<&JsonValue>) -> Option<JsonValue> {
    match v {
        Some(x) => Some(*x),
        None => None,
    }
}

/// `v.as_str()` (see [`text`]).
pub fn as_str<'a>(v: Option<&'a JsonValue>) -> (r: Option<&'a str>)
    ensures
        match r {
            Some(s) => text(deref(v)) == Some(s@),
            None => text(deref(v)) is None,
        },
{
    match v {
        Some(JsonValue::String(s)) => Some(s.as_str()),
        _ => None,
    }
}

/// `v.as_str().unwrap_or(default)` as an owned string.
pub fn str_or(v: Option<&JsonValue>, default: &str) -> (r: String)
    ensures
        r@ == text_or(deref(v), default@),
{
    match as_str(v) {
        Some(s) => String::from_str(s),
        None => String::from_str(default),
    }
}

/// `v.as_str().map(String::from)`.
pub fn opt_string(v: Option<&JsonValue>) -> (r: Option<String>)
    ensures
        match r {
            Some(s) => text(deref(v)) == Some(s@),
            None => text(deref(v)) is None,
        },
{
    match as_str(v) {
        Some(s) => Some(String::from_str(s)),
        None => None,
    }
}

/// `v.as_u64()` (see [`unsigned`]).
pub fn as_u64(v: Option<&JsonValue>) -> (r: Option<u64>)
    ensures
        r == unsigned(deref(v)),
{
    match v {
        Some(JsonValue::Number(n)) => n.unsigned,
        _ => None,
    }
}

/// `v.as_u64().unwrap_or(0)`.
pub fn u64_or_zero(v: Option<&JsonValue>) -> (r: u64)
    ensures
        r == unsigned_or_zero(deref(v)),
{
    match as_u64(v) {
        Some(n) => n,
        None => 0,
    }
}

/// `v.as_array()` (see [`items`]).
pub fn as_array<'a>(v: Option<&'a JsonValue>) -> (r: Option<&'a Vec<JsonValue>>)
    ensures
        match r {
            Some(a) => items(deref(v)) == Some(a@),
            None => items(deref(v)) is None,
        },
{
    match v {
        Some(JsonValue::Array(a)) => Some(a),
        _ => None,
    }
}

/// `v.is_object()`.
pub fn is_obj(v: Option<&JsonValue>) -> (b: bool)
    ensures
        b == is_object(deref(v)),
{
    match v {
        Some(JsonValue::Object(_)) => true,
        _ => false,
    }
}

// ---------------------------------------------------------------------------
// Parsing
// ---------------------------------------------------------------------------

/// What `serde_json::from_str::<serde_json::Value>` makes of `text`, in the
/// plain model: the document, or the text of the error. Objects list their
/// entries in the order `serde_json`'s map keeps them.
pub uninterp spec fn json_parsed(text: Seq<char>) -> Result<JsonValue, Seq<char>>;

/// The document `text` holds, if it is one.
pub open spec fn json_document(text: Seq<char>) -> Option<JsonValue> {
    match json_parsed(text) {
        Ok(v) => Some(v),
        Err(_) => None,
    }
}

#[verifier::external_type_specification]
#[verifier::external_body]
pub struct ExJsonValue(serde_json::Value);

/// Turns a parsed `serde_json` value into the plain model (numbers keep
/// their `as_u64` value).
#[verifier::external_body]
fn from_serde(v: &serde_json::Value) -> JsonValue {
    match v {
        serde_json::Value::Null => JsonValue::Null,
        serde_json::Value::Bool(b) => JsonValue::Bool(*b),
        serde_json::Value::Number(n) => JsonValue::Number(JsonNumber { unsigned: n.as_u64() }),
        serde_json::Value::String(s) => JsonValue::String(s.clone()),
        serde_json::Value::Array(a) => JsonValue::Array(a.iter().map(from_serde).collect()),
        serde_json::Value::Object(o) => JsonValue::Object(
            o.iter().map(|(k, x)| (k.clone(), from_serde(x))).collect(),
        ),
    }
}

/// Calls `serde_json::from_str` for a `serde_json::Value`. Parsing is
/// `serde_json`'s and its outcome is named [`json_parsed`]; an error is kept
/// as its text.
#[verifier::external_body]
pub(crate) fn parse_json_result(text: &str) -> (r: Result<JsonValue, String>)
    ensures
        match r {
            Ok(v) => json_parsed(text@) == Ok::<JsonValue, Seq<char>>(v),
            Err(m) => json_parsed(text@) == Err::<JsonValue, Seq<char>>(m@),
        },
{
    match serde_json::from_str::<serde_json::Value>(text) {
        Ok(v) => Ok(from_serde(&v)),
        Err(e) => Err(e.to_string()),
    }
}

/// The document `text` holds, if it is one (see [`json_document`]).
pub fn parse_json(text: &str) -> (r: Option<JsonValue>)
    ensures
        r == json_document(text@),
{
    match parse_json_result(text) {
        Ok(v) => Some(v),
        Err(_) => None,
    }
}

// ---------------------------------------------------------------------------
// Decimal numbers
// ---------------------------------------------------------------------------

/// The character of a decimal digit.
pub open spec fn digit_char(d: nat) -> char {
    (('0' as u32) + d) as char
}

/// The decimal notation of `n`, without leading zeros (`0` for zero).
pub open spec fn decimal(n: nat) -> Seq<char>
    decreases n,
{
    if n < 10 {
        seq![digit_char(n)]
    } else {
        decimal(n / 10).push(digit_char(n % 10))
    }
}

/// Reading the decimal notation of `n` back gives `n`.
pub proof fn lemma_decimal_value(n: nat)
    ensures
        digits_value(decimal(n)) == n,
    decreases n,
{
    let d = n % 10;
    assert(('0' as u32) == 48);
    assert((digit_char(d) as u32) == 48 + d);
    assert(decimal(n).last() == digit_char(d));
    if n < 10 {
        assert(decimal(n).drop_last() =~= Seq::<char>::empty());
        assert(digits_value(decimal(n).drop_last()) == 0);
    } else {
        lemma_decimal_value(n / 10);
        assert(decimal(n).drop_last() =~= decimal(n / 10));
        assert(n == (n / 10) * 10 + d);
    }
}

/// Distinct numbers have distinct decimal notations.
pub proof fn lemma_decimal_injective(i: nat, j: nat)
    requires
        decimal(i) == decimal(j),
    ensures
        i == j,
{
    lemma_decimal_value(i);
    lemma_decimal_value(j);
}

/// The character of the decimal digit `d`.
fn digit_of(d: u8) -> (c: char)
    requires
        d < 10,
    ensures
        c == digit_char(d as nat),
{
    match d {
        0 => '0',
        1 => '1',
        2 => '2',
        3 => '3',
        4 => '4',
        5 => '5',
        6 => '6',
        7 => '7',
        8 => '8',
        _ => '9',
    }
}

/// The decimal notation of `n` (what `u64::to_string` gives).
pub fn u64_to_string(n: u64) -> (s: String)
    ensures
        s@ == decimal(n as nat),
{
    let mut digits: Vec<char> = Vec::new();
    let mut m = n;
    while m >= 10
        invariant
            decimal(n as nat) == decimal(m as nat) + digits@.reverse(),
        decreases m,
    {
        let c = digit_of((m % 10) as u8);
        let ghost old_d = digits@;
        digits.push(c);
        assert(digits@.reverse() =~= seq![c] + old_d.reverse());
        assert(decimal(m as nat) == decimal((m / 10) as nat).push(c));
        assert(decimal(m as nat) + old_d.reverse() =~= decimal((m / 10) as nat) + digits@.reverse());
        m = m / 10;
    }
    let c = digit_of(m as u8);
    assert(decimal(m as nat) == seq![c]);
    let ghost old_d = digits@;
    digits.push(c);
    assert(digits@.reverse() =~= seq![c] + old_d.reverse());
    let mut s = String::new();
    let mut i = digits.len();
    while i > 0
        invariant
            i <= digits@.len(),
            s@ == digits@.reverse().take(digits@.len() - i),
            decimal(n as nat) =~= digits@.reverse(),
        decreases i,
    {
        i = i - 1;
        crate::text::push_char(&mut s, digits[i]);
        assert(s@ =~= digits@.reverse().take(digits@.len() - i));
    }
    assert(digits@.reverse().take(digits@.len() as int) =~= digits@.reverse());
    s
}

/// The value of a sequence of decimal digits.
pub open spec fn digits_value(s: Seq<char>) -> nat
    decreases s.len(),
{
    if s.len() == 0 {
        0
    } else {
        digits_value(s.drop_last()) * 10 + ((s.last() as u32) - ('0' as u32)) as nat
    }
}

/// An ASCII decimal digit.
pub open spec fn is_digit(c: char) -> bool {
    '0' <= c && c <= '9'
}

/// The text after an optional leading `+`.
pub open spec fn unsigned_digits(s: Seq<char>) -> Seq<char> {
    if s.len() > 0 && s[0] == '+' {
        s.drop_first()
    } else {
        s
    }
}

/// Whether every character is an ASCII decimal digit.
pub open spec fn all_digits(d: Seq<char>) -> bool {
    forall|i: int| 0 <= i < d.len() ==> is_digit(#[trigger] d[i])
}

/// What `s.parse::<u64>()` gives: an optional `+` followed by at least one
/// ASCII digit, with a value that fits in a `u64`.
pub open spec fn parse_u64_spec(s: Seq<char>) -> Option<u64> {
    let d = unsigned_digits(s);
    if d.len() > 0 && all_digits(d) && digits_value(d) <= u64::MAX {
        Some(digits_value(d) as u64)
    } else {
        None
    }
}

/// What `s.parse::<u64>()` gives, an error being kept as its message.
pub open spec fn parse_u64_result(s: Seq<char>) -> Result<u64, Seq<char>> {
    if s.len() == 0 {
        Err("cannot parse integer from empty string"@)
    } else {
        match parse_u64_spec(s) {
            Some(n) => Ok(n),
            None => if unsigned_digits(s).len() > 0 && all_digits(unsigned_digits(s)) {
                Err("number too large to fit in target type"@)
            } else {
                Err("invalid digit found in string"@)
            },
        }
    }
}

/// Parses an unsigned decimal number, telling why it is not one (see
/// [`parse_u64_result`]).
pub fn parse_u64_checked(s: &[char]) -> (r: Result<u64, String>)
    ensures
        match r {
            Ok(n) => parse_u64_result(s@) == Ok::<u64, Seq<char>>(n),
            Err(m) => parse_u64_result(s@) == Err::<u64, Seq<char>>(m@),
        },
{
    if s.len() == 0 {
        return Err(String::from_str("cannot parse integer from empty string"));
    }
    match parse_u64(s) {
        Some(n) => Ok(n),
        None => {
            let start: usize = if s[0] == '+' {
                1
            } else {
                0
            };
            let ghost d = unsigned_digits(s@);
            assert(d =~= s@.skip(start as int));
            let mut i = start;
            while i < s.len()
                invariant
                    start <= i <= s@.len(),
                    s@.len() > 0,
                    parse_u64_spec(s@) is None,
                    d == unsigned_digits(s@),
                    d =~= s@.skip(start as int),
                    forall|k: int| 0 <= k < i - start ==> is_digit(#[trigger] d[k]),
                decreases s.len() - i,
            {
                if !('0' <= s[i] && s[i] <= '9') {
                    assert(!is_digit(d[i - start]));
                    return Err(String::from_str("invalid digit found in string"));
                }
                i = i + 1;
            }
            if start == s.len() {
                Err(String::from_str("invalid digit found in string"))
            } else {
                assert(all_digits(d));
                Err(String::from_str("number too large to fit in target type"))
            }
        },
    }
}

/// Parses an unsigned decimal number (see [`parse_u64_spec`]).
pub fn parse_u64(s: &[char]) -> (r: Option<u64>)
    ensures
        r == parse_u64_spec(s@),
{
    let start: usize = if s.len() > 0 && s[0] == '+' {
        1
    } else {
        0
    };
    let ghost d = unsigned_digits(s@);
    assert(d =~= s@.skip(start as int));
    if start >= s.len() {
        assert(d.len() == 0);
        return None;
    }
    let mut value: u64 = 0;
    let mut i = start;
    while i < s.len()
        invariant
            start <= i <= s@.len(),
            start == (if s@.len() > 0 && s@[0] == '+' { 1int } else { 0int }),
            d == unsigned_digits(s@),
            d =~= s@.skip(start as int),
            value == digits_value(d.take(i - start)),
            forall|k: int| 0 <= k < i - start ==> is_digit(#[trigger] d[k]),
        decreases s.len() - i,
    {
        let c = s[i];
        assert(d.take(i - start + 1).drop_last() =~= d.take(i - start));
        assert(d[i - start] == c);
        if !('0' <= c && c <= '9') {
            assert(!is_digit(d[i - start]));
            assert(!all_digits(d));
            assert(parse_u64_spec(s@) is None);
            return None;
        }
        let digit = ((c as u32) - ('0' as u32)) as u64;
        if value > (u64::MAX - digit) / 10 {
            proof {
                assert(digits_value(d.take(i - start + 1)) == value * 10 + digit);
                assert(value * 10 + digit > u64::MAX) by (nonlinear_arith)
                    requires value > (u64::MAX - digit) / 10, digit <= 9;
                if all_digits(d) {
                    lemma_digits_value_prefix(d, i - start + 1);
                    assert(digits_value(d) > u64::MAX);
                }
                assert(parse_u64_spec(s@) is None);
            }
            return None;
        }
        assert(value * 10 + digit <= u64::MAX) by (nonlinear_arith)
            requires value <= (u64::MAX - digit) / 10, digit <= 9;
        value = value * 10 + digit;
        i = i + 1;
    }
    assert(d.take(s.len() - start) =~= d);
    assert(all_digits(d));
    assert(parse_u64_spec(s@) == Some(value));
    Some(value)
}

/// The value of a digit sequence is at least the value of any prefix.
proof fn lemma_digits_value_prefix(d: Seq<char>, k: int)
    requires
        0 <= k <= d.len(),
        all_digits(d),
    ensures
        digits_value(d.take(k)) <= digits_value(d),
    decreases d.len() - k,
{
    if k < d.len() {
        lemma_digits_value_prefix(d, k + 1);
        assert(d.take(k + 1).drop_last() =~= d.take(k));
        assert(is_digit(d.take(k + 1).last()));
    } else {
        assert(d.take(k) =~= d);
    }
}

} // verus!
