//! The extractor's metadata document: a JSON tree held as plain values, with
//! verified field lookup. The text-to-tree step is the outside parser's, held
//! behind trusted declarations; everything that reads the tree is verified.

use vstd::prelude::*;
use crate::text::{is_digit_char, is_digit};

verus! {

/// A parsed document node. Numbers keep their decimal text, so the tree is
/// plain data throughout.
#[derive(Debug)]
pub enum JsonValue {
    Null,
    Bool(bool),
    Num(String),
    Str(String),
    Arr(Vec<JsonValue>),
    Obj(Vec<(String, JsonValue)>),
}

#[verifier::external_type_specification]
#[verifier::external_body]
pub struct ExValue(serde_json::Value);

/// The tree that the outside parser yields for the text `s`, or `None` where
/// the text is not a well-formed document. The result depends on the text
/// alone.
pub uninterp spec fn json_tree(s: Seq<char>) -> Option<JsonValue>;

/// Relies on `serde_json::Value`'s variants, one arm each, and on
/// `serde_json::Number`'s text form (`to_string`): rebuilds the parsed tree
/// as plain values, converting only.
#[verifier::external_body]
fn tree_of_value(v: serde_json::Value) -> JsonValue {
    match v {
        serde_json::Value::Null => JsonValue::Null,
        serde_json::Value::Bool(b) => JsonValue::Bool(b),
        serde_json::Value::Number(n) => JsonValue::Num(n.to_string()),
        serde_json::Value::String(s) => JsonValue::Str(s),
        serde_json::Value::Array(a) => JsonValue::Arr(a.into_iter().map(tree_of_value).collect()),
        serde_json::Value::Object(o) => JsonValue::Obj(
            o.into_iter().map(|e| (e.0, tree_of_value(e.1))).collect(),
        ),
    }
}

/// Relies on `serde_json::from_str::<Value>`: parses one JSON document, a
/// pure function of the text; `Err` exactly where the text is malformed.
#[verifier::external_body]
pub(crate) fn parse_document(s: &str) -> (r: Option<JsonValue>)
    ensures
        r == json_tree(s@),
{
    match serde_json::from_str::<serde_json::Value>(s) {
        Ok(v) => Some(tree_of_value(v)),
        Err(_) => None,
    }
}

/// An object's entries; any other node has none.
pub open spec fn obj_entries(v: JsonValue) -> Seq<(String, JsonValue)> {
    match v {
        JsonValue::Obj(es) => es@,
        _ => Seq::empty(),
    }
}

/// Lookup among entries; on a duplicated key the last entry wins, as the
/// outside parser's map does.
pub open spec fn spec_obj_get(es: Seq<(String, JsonValue)>, key: Seq<char>) -> Option<JsonValue>
    decreases es.len(),
{
    if es.len() == 0 {
        None
    } else if es.last().0@ == key {
        Some(es.last().1)
    } else {
        spec_obj_get(es.drop_last(), key)
    }
}

pub open spec fn spec_get(v: JsonValue, key: Seq<char>) -> Option<JsonValue> {
    spec_obj_get(obj_entries(v), key)
}

/// The string under `key`, where the node is an object and the field a
/// string; `None` for an absent field or any other shape.
pub open spec fn spec_get_str(v: JsonValue, key: Seq<char>) -> Option<Seq<char>> {
    match spec_get(v, key) {
        Some(JsonValue::Str(s)) => Some(s@),
        _ => None,
    }
}

/// The number text under `key`, where the field is a number.
pub open spec fn spec_get_num_text(v: JsonValue, key: Seq<char>) -> Option<Seq<char>> {
    match spec_get(v, key) {
        Some(JsonValue::Num(t)) => Some(t@),
        _ => None,
    }
}

/// The elements under `key`, where the field is an array; empty otherwise.
pub open spec fn spec_get_items(v: JsonValue, key: Seq<char>) -> Seq<JsonValue> {
    match spec_get(v, key) {
        Some(JsonValue::Arr(a)) => a@,
        _ => Seq::empty(),
    }
}

pub open spec fn opt_view(o: Option<String>) -> Option<Seq<char>> {
    match o {
        Some(s) => Some(s@),
        None => None,
    }
}

pub fn obj_get<'a>(v: &'a JsonValue, key: &str) -> (r: Option<&'a JsonValue>)
    ensures
        match r {
            Some(x) => spec_get(*v, key@) == Some(*x),
            None => spec_get(*v, key@) is None,
        },
{
    match v {
        JsonValue::Obj(entries) => {
            let m = entries.len();
            proof {
                assert(entries@.take(m as int) =~= entries@);
            }
            let mut j = m;
            while j > 0
                invariant
                    0 <= j <= m,
                    m == entries@.len(),
                    obj_entries(*v) == entries@,
                    spec_obj_get(entries@, key@) == spec_obj_get(
                        entries@.take(j as int),
                        key@,
                    ),
                decreases j,
            {
                if crate::text::str_eq(entries[j - 1].0.as_str(), key) {
                    return Some(&entries[j - 1].1);
                }
                proof {
                    assert(entries@.take(j as int).drop_last() =~= entries@.take(j - 1));
                }
                j = j - 1;
            }
            None
        },
        _ => None,
    }
}

pub fn get_str_field(v: &JsonValue, key: &str) -> (r: Option<String>)
    ensures
        opt_view(r) == spec_get_str(*v, key@),
{
    match obj_get(v, key) {
        Some(x) => match x {
            JsonValue::Str(s) => Some(s.clone()),
            _ => None,
        },
        None => None,
    }
}

pub fn get_num_text_field(v: &JsonValue, key: &str) -> (r: Option<String>)
    ensures
        opt_view(r) == spec_get_num_text(*v, key@),
{
    match obj_get(v, key) {
        Some(x) => match x {
            JsonValue::Num(t) => Some(t.clone()),
            _ => None,
        },
        None => None,
    }
}

/// The text is one or more decimal digits.
pub open spec fn all_digits(s: Seq<char>) -> bool {
    s.len() > 0 && forall|i: int| 0 <= i < s.len() ==> is_digit_char(s[i])
}

pub open spec fn digits_val(s: Seq<char>) -> int
    decreases s.len(),
{
    if s.len() == 0 {
        0
    } else {
        digits_val(s.drop_last()) * 10 + (s.last() as u32 - '0' as u32)
    }
}

/// The unsigned integer a number text denotes: defined exactly for a plain
/// digit string whose value fits in the size field's type; a signed,
/// fractional or exponent form denotes none.
pub open spec fn spec_num_u64(s: Seq<char>) -> Option<u64> {
    if all_digits(s) && digits_val(s) <= u64::MAX {
        Some(digits_val(s) as u64)
    } else {
        None
    }
}

proof fn lemma_digits_val_nonneg(s: Seq<char>)
    requires
        forall|t: int| 0 <= t < s.len() ==> is_digit_char(s[t]),
    ensures
        digits_val(s) >= 0,
    decreases s.len(),
{
    if s.len() > 0 {
        lemma_digits_val_nonneg(s.drop_last());
    }
}

proof fn lemma_digits_val_grows(s: Seq<char>, j: int)
    requires
        0 <= j <= s.len(),
        forall|t: int| 0 <= t < s.len() ==> is_digit_char(s[t]),
    ensures
        digits_val(s) >= digits_val(s.take(j)),
    decreases s.len() - j,
{
    if j == s.len() {
        assert(s.take(j) =~= s);
    } else {
        assert(s.take(j + 1).drop_last() =~= s.take(j));
        assert(forall|t: int| 0 <= t < s.take(j).len() ==> is_digit_char(s.take(j)[t]));
        lemma_digits_val_nonneg(s.take(j));
        assert(digits_val(s.take(j + 1)) >= digits_val(s.take(j)));
        lemma_digits_val_grows(s, j + 1);
    }
}

/// Reads an unsigned integer from a digit string, exactly `spec_num_u64`.
pub fn parse_u64_digits(s: &str) -> (r: Option<u64>)
    ensures
        r == spec_num_u64(s@),
{
    let n = s.unicode_len();
    if n == 0 {
        return None;
    }
    let mut acc: u64 = 0;
    let mut i: usize = 0;
    while i < n
        invariant
            0 <= i <= n,
            0 < n == s@.len(),
            forall|t: int| 0 <= t < i ==> is_digit_char(s@[t]),
            acc == digits_val(s@.take(i as int)),
        decreases n - i,
    {
        let c = s.get_char(i);
        if !is_digit(c) {
            return None;
        }
        let d: u64 = (c as u32 - 48) as u64;
        proof {
            assert(s@.take(i + 1).drop_last() =~= s@.take(i as int));
        }
        if acc > u64::MAX / 10 || (acc == u64::MAX / 10 && d > u64::MAX % 10) {
            proof {
                assert(digits_val(s@.take(i + 1)) > u64::MAX);
                if all_digits(s@) {
                    lemma_digits_val_grows(s@, i + 1);
                }
            }
            return None;
        }
        acc = acc * 10 + d;
        i = i + 1;
    }
    proof {
        assert(s@.take(n as int) =~= s@);
    }
    Some(acc)
}

pub fn get_u64_field(v: &JsonValue, key: &str) -> (r: Option<u64>)
    ensures
        r == (match spec_get(*v, key@) {
            Some(JsonValue::Num(t)) => spec_num_u64(t@),
            _ => None::<u64>,
        }),
{
    match obj_get(v, key) {
        Some(x) => match x {
            JsonValue::Num(t) => parse_u64_digits(t.as_str()),
            _ => None,
        },
        None => None,
    }
}

} // verus!
