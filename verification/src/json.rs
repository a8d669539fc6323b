//! A JSON document model that holds what the usage logic reads: objects keep
//! their members in the order they were handed over, numbers keep the integer
//! they carry (a float is only marked as such).

use vstd::prelude::*;
use vstd::string::*;

verus! {

/// A JSON number, told apart as serde_json does: non-negative integers,
/// negative integers, and floats (whose value the usage logic never reads).
#[derive(Debug, Clone, Copy, PartialEq, Eq)]
pub enum JsonNumber {
    PosInt(u64),
    NegInt(i64),
    Float,
}

/// A JSON value. An object is the list of its members in iteration order.
#[derive(Debug)]
pub enum JsonValue {
    Null,
    Bool(bool),
    Number(JsonNumber),
    String(String),
    Array(Vec<JsonValue>),
    Object(Vec<(String, JsonValue)>),
}

/// The value of the first member of `fields`, from index `i` on, whose key is `key`.
pub open spec fn lookup_from(fields: Seq<(String, JsonValue)>, key: Seq<char>, i: int) -> Option<JsonValue>
    decreases fields.len() - i,
{
    if 0 <= i < fields.len() {
        if fields[i].0@ == key {
            Some(fields[i].1)
        } else {
            lookup_from(fields, key, i + 1)
        }
    } else {
        None
    }
}

/// The value stored under `key` in an object's members.
pub open spec fn lookup(fields: Seq<(String, JsonValue)>, key: Seq<char>) -> Option<JsonValue> {
    lookup_from(fields, key, 0)
}

/// `value[key]` as serde_json's `Value::get` reads it: only objects have members.
pub open spec fn member(value: JsonValue, key: Seq<char>) -> Option<JsonValue> {
    match value {
        JsonValue::Object(fields) => lookup(fields@, key),
        _ => None,
    }
}

/// Looks up `key` among an object's members.
pub fn object_get<'a>(fields: &'a Vec<(String, JsonValue)>, key: &String) -> (r: Option<&'a JsonValue>)
    ensures
        match r {
            Some(v) => lookup(fields@, key@) == Some(*v),
            None => lookup(fields@, key@) is None,
        },
{
    let mut i: usize = 0;
    while i < fields.len()
        invariant
            i <= fields@.len(),
            lookup(fields@, key@) == lookup_from(fields@, key@, i as int),
        decreases fields@.len() - i,
    {
        if fields[i].0 == *key {
            return Some(&fields[i].1);
        }
        i = i + 1;
    }
    None
}


pub open spec fn is_digit(c: char) -> bool {
    '0' <= c && c <= '9'
}

pub open spec fn digit_value(c: char) -> int {
    (c as int) - ('0' as int)
}

/// The number that a string of decimal digits spells.
pub open spec fn digits_value(s: Seq<char>) -> int
    decreases s.len(),
{
    if s.len() == 0 {
        0
    } else {
        10 * digits_value(s.drop_last()) + digit_value(s.last())
    }
}

pub open spec fn all_digits(s: Seq<char>) -> bool {
    forall|i: int| 0 <= i < s.len() ==> is_digit(#[trigger] s[i])
}

pub open spec fn has_sign(s: Seq<char>) -> bool {
    s.len() > 0 && (s[0] == '-' || s[0] == '+')
}

/// What `str::parse::<i64>` accepts: an optional `+` or `-`, then one or more
/// ASCII digits, spelling a number within the range of `i64`.
pub open spec fn spec_parse_i64(s: Seq<char>) -> Option<i64> {
    let digits = if has_sign(s) { s.drop_first() } else { s };
    let value = if s.len() > 0 && s[0] == '-' { -digits_value(digits) } else { digits_value(digits) };
    if digits.len() > 0 && all_digits(digits) && i64::MIN <= value && value <= i64::MAX {
        Some(value as i64)
    } else {
        None
    }
}

proof fn lemma_digits_value_nonneg(s: Seq<char>)
    requires
        all_digits(s),
    ensures
        digits_value(s) >= 0,
    decreases s.len(),
{
    if s.len() > 0 {
        assert(all_digits(s.drop_last()));
        lemma_digits_value_nonneg(s.drop_last());
        assert(is_digit(s[s.len() - 1]));
    }
}

/// Reading more digits never makes the number smaller.
proof fn lemma_digits_value_grows(s: Seq<char>, k: int)
    requires
        all_digits(s),
        0 <= k <= s.len(),
    ensures
        digits_value(s.take(k)) <= digits_value(s),
    decreases s.len() - k,
{
    if k < s.len() {
        lemma_digits_value_grows(s, k + 1);
        let t = s.take(k + 1);
        assert(t.drop_last() =~= s.take(k));
        assert(all_digits(s.take(k)));
        lemma_digits_value_nonneg(s.take(k));
        assert(is_digit(t[k]));
    } else {
        assert(s.take(k) =~= s);
    }
}

/// Parses a decimal integer as `str::parse::<i64>` does.
pub fn parse_i64(text: &str) -> (r: Option<i64>)
    ensures
        r == spec_parse_i64(text@),
{
    let n = text.unicode_len();
    if n == 0 {
        return None;
    }
    let first = text.get_char(0);
    let negative = first == '-';
    let start: usize = if first == '-' || first == '+' { 1 } else { 0 };
    let ghost s = text@;
    let ghost digits = if has_sign(s) { s.drop_first() } else { s };
    assert(digits =~= s.subrange(start as int, n as int));
    if start == n {
        return None;
    }
    let mut magnitude: i128 = 0;
    let mut i: usize = start;
    while i < n
        invariant
            s == text@,
            n == s.len(),
            start <= i <= n,
            start < n,
            digits =~= s.subrange(start as int, n as int),
            digits == (if has_sign(s) { s.drop_first() } else { s }),
            negative == (s[0] == '-'),
            all_digits(s.subrange(start as int, i as int)),
            magnitude == digits_value(s.subrange(start as int, i as int)),
            0 <= magnitude,
            negative ==> magnitude <= 0x8000_0000_0000_0000,
            !negative ==> magnitude <= 0x7fff_ffff_ffff_ffff,
        decreases n - i,
    {
        let c = text.get_char(i);
        if !('0' <= c && c <= '9') {
            assert(digits[i - start] == s[i as int]);
            assert(!is_digit(digits[i - start]));
            assert(!all_digits(digits));
            return None;
        }
        let ghost prev = s.subrange(start as int, i as int);
        let ghost next = s.subrange(start as int, i + 1);
        assert(next.drop_last() =~= prev);
        let d = (c as u32 - 48) as i128;
        magnitude = magnitude * 10 + d;
        i = i + 1;
        assert(all_digits(next));
        if (negative && magnitude > 0x8000_0000_0000_0000) || (!negative && magnitude > 0x7fff_ffff_ffff_ffff) {
            proof {
                if all_digits(digits) {
                    lemma_digits_value_grows(digits, (i - start) as int);
                    assert(digits.take((i - start) as int) =~= next);
                    assert(digits_value(digits) >= magnitude);
                }
            }
            assert(spec_parse_i64(s) is None);
            return None;
        }
    }
    assert(s.subrange(start as int, n as int) =~= digits);
    if negative {
        Some((0 - magnitude) as i64)
    } else {
        Some(magnitude as i64)
    }
}

/// What a JSON value yields as an integer count: an integer within `i64`, or a
/// string that parses as one (serde_json's `as_i64`, then `as_u64` narrowed to
/// `i64`, then `as_str` parsed).
pub open spec fn spec_value_to_i64(value: JsonValue) -> Option<i64> {
    match value {
        JsonValue::Number(JsonNumber::PosInt(u)) => if u <= i64::MAX { Some(u as i64) } else { None },
        JsonValue::Number(JsonNumber::NegInt(i)) => Some(i),
        JsonValue::String(s) => spec_parse_i64(s@),
        _ => None,
    }
}

/// Reads a JSON value as an integer count.
pub fn value_to_i64(value: &JsonValue) -> (r: Option<i64>)
    ensures
        r == spec_value_to_i64(*value),
{
    match value {
        JsonValue::Number(JsonNumber::PosInt(u)) => {
            if *u <= 0x7fff_ffff_ffff_ffff {
                Some(*u as i64)
            } else {
                None
            }
        },
        JsonValue::Number(JsonNumber::NegInt(i)) => Some(*i),
        JsonValue::String(s) => parse_i64(s.as_str()),
        _ => None,
    }
}


/// Every integer that fits in `i64` is read as that count, zero included, and
/// so is every string that `str::parse::<i64>` accepts; nothing else is a count.
pub proof fn law_integers_read_as_counts(value: JsonValue)
    ensures
        value matches JsonValue::Number(JsonNumber::PosInt(u)) ==> (u <= i64::MAX
            <==> spec_value_to_i64(value) == Some(u as i64)),
        value matches JsonValue::Number(JsonNumber::NegInt(i)) ==> spec_value_to_i64(value) == Some(i),
        value matches JsonValue::String(s) ==> spec_value_to_i64(value) == spec_parse_i64(s@),
        !(value is Number || value is String) ==> spec_value_to_i64(value) is None,
        value == JsonValue::Number(JsonNumber::Float) ==> spec_value_to_i64(value) is None,
{
}

} // verus!
