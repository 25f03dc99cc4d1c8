//! A plain model of a parsed JSON document, produced by the outside
//! parser and consumed by the verified schema decoders.

use vstd::prelude::*;

verus! {

/// A parsed JSON document. Numbers are kept exactly: integers in the
/// signed or the unsigned 64-bit range as such, any other numeric token
/// by its rendered text (the decoders accept no such field, so nothing
/// downstream depends on that text's shape).
pub enum Json {
    Null,
    Bool(bool),
    Int(i64),
    UInt(u64),
    NumText(String),
    Str(String),
    Arr(Vec<Json>),
    Obj(Vec<(String, Json)>),
}

/// First entry of `entries` whose key reads `key`, if any.
pub open spec fn slookup(entries: Seq<(String, Json)>, key: Seq<char>) -> Option<Json>
    decreases entries.len(),
{
    if entries.len() == 0 {
        None
    } else if entries[0].0@ == key {
        Some(entries[0].1)
    } else {
        slookup(entries.drop_first(), key)
    }
}

/// Key order never matters to the decoders: fields are found by
/// `slookup` and strictness is a property of the key set.
pub open spec fn key_allowed(k: Seq<char>, allowed: Seq<Seq<char>>) -> bool {
    exists|i: int| 0 <= i < allowed.len() && allowed[i] == k
}

pub open spec fn keys_allowed(e: Seq<(String, Json)>, allowed: Seq<Seq<char>>) -> bool {
    forall|i: int| 0 <= i < e.len() ==> key_allowed((#[trigger] e[i]).0@, allowed)
}

pub open spec fn keys_distinct(e: Seq<(String, Json)>) -> bool {
    forall|i: int, j: int|
        0 <= i < j < e.len() ==> (#[trigger] e[i]).0@ != (#[trigger] e[j]).0@
}

/// A closed object shape: no key outside `allowed`, no key twice.
pub open spec fn strict_obj(e: Seq<(String, Json)>, allowed: Seq<Seq<char>>) -> bool {
    keys_distinct(e) && keys_allowed(e, allowed)
}

pub open spec fn views_of(a: Seq<&str>) -> Seq<Seq<char>> {
    a.map_values(|s: &str| s@)
}

pub open spec fn as_u64(j: Json) -> Option<u64> {
    match j {
        Json::Int(i) => if i >= 0 {
            Some(i as u64)
        } else {
            None
        },
        Json::UInt(u) => Some(u),
        _ => None,
    }
}

pub open spec fn as_i64(j: Json) -> Option<i64> {
    match j {
        Json::Int(i) => Some(i),
        Json::UInt(u) => if u <= i64::MAX as u64 {
            Some(u as i64)
        } else {
            None
        },
        _ => None,
    }
}

pub open spec fn as_text(j: Json) -> Option<Seq<char>> {
    match j {
        Json::Str(s) => Some(s@),
        _ => None,
    }
}

pub open spec fn as_bool(j: Json) -> Option<bool> {
    match j {
        Json::Bool(b) => Some(b),
        _ => None,
    }
}

/// A required field read as an unsigned integer.
pub open spec fn req_u64(e: Seq<(String, Json)>, k: Seq<char>) -> Option<u64> {
    match slookup(e, k) {
        Some(v) => as_u64(v),
        None => None,
    }
}

/// A required field read as a signed integer.
pub open spec fn req_i64(e: Seq<(String, Json)>, k: Seq<char>) -> Option<i64> {
    match slookup(e, k) {
        Some(v) => as_i64(v),
        None => None,
    }
}

/// A required field read as text.
pub open spec fn req_text(e: Seq<(String, Json)>, k: Seq<char>) -> Option<Seq<char>> {
    match slookup(e, k) {
        Some(v) => as_text(v),
        None => None,
    }
}

/// A required field read as a boolean.
pub open spec fn req_bool(e: Seq<(String, Json)>, k: Seq<char>) -> Option<bool> {
    match slookup(e, k) {
        Some(v) => as_bool(v),
        None => None,
    }
}

pub proof fn lemma_slookup_decreases(entries: Seq<(String, Json)>, key: Seq<char>)
    requires
        slookup(entries, key) is Some,
    ensures
        decreases_to!(entries => slookup(entries, key)->0),
    decreases entries.len(),
{
    if entries.len() == 0 {
    } else if entries[0].0@ == key {
        assert(decreases_to!(entries => entries[0]));
    } else {
        lemma_slookup_decreases(entries.drop_first(), key);
        assert(decreases_to!(entries => entries.drop_first()));
    }
}

proof fn lemma_slookup_first(e: Seq<(String, Json)>, key: Seq<char>, i: int)
    requires
        0 <= i < e.len(),
        e[i].0@ == key,
        forall|j: int| 0 <= j < i ==> (#[trigger] e[j]).0@ != key,
    ensures
        slookup(e, key) == Some(e[i].1),
    decreases i,
{
    if i > 0 {
        assert(forall|j: int|
            0 <= j < i - 1 ==> (#[trigger] e.drop_first()[j]).0@ == e[j + 1].0@);
        lemma_slookup_first(e.drop_first(), key, i - 1);
        assert(e.drop_first()[i - 1] == e[i]);
    }
}

proof fn lemma_slookup_none(e: Seq<(String, Json)>, key: Seq<char>)
    requires
        forall|j: int| 0 <= j < e.len() ==> (#[trigger] e[j]).0@ != key,
    ensures
        slookup(e, key) is None,
    decreases e.len(),
{
    if e.len() > 0 {
        assert(forall|j: int|
            0 <= j < e.len() - 1 ==> (#[trigger] e.drop_first()[j]).0@ == e[j + 1].0@);
        lemma_slookup_none(e.drop_first(), key);
    }
}

/// Whether two texts read the same.
pub fn str_eq(a: &str, b: &str) -> (r: bool)
    ensures
        r == (a@ == b@),
{
    let sa = a.to_owned();
    let sb = b.to_owned();
    sa == sb
}

/// Finds the first entry under `key`, exactly as `slookup` does.
pub fn obj_get<'a>(entries: &'a Vec<(String, Json)>, key: &str) -> (r: Option<&'a Json>)
    ensures
        match r {
            Some(v) => slookup(entries@, key@) == Some(*v),
            None => slookup(entries@, key@) is None,
        },
{
    let n = entries.len();
    let mut i: usize = 0;
    while i < n
        invariant
            0 <= i <= n,
            n == entries@.len(),
            forall|j: int| 0 <= j < i ==> (#[trigger] entries@[j]).0@ != key@,
        decreases n - i,
    {
        if str_eq(entries[i].0.as_str(), key) {
            proof {
                lemma_slookup_first(entries@, key@, i as int);
            }
            return Some(&entries[i].1);
        }
        i += 1;
    }
    proof {
        lemma_slookup_none(entries@, key@);
    }
    None
}

fn key_in(k: &str, allowed: &Vec<&str>) -> (r: bool)
    ensures
        r == key_allowed(k@, views_of(allowed@)),
{
    let n = allowed.len();
    let mut i: usize = 0;
    while i < n
        invariant
            0 <= i <= n,
            n == allowed@.len(),
            forall|j: int| 0 <= j < i ==> views_of(allowed@)[j] != k@,
        decreases n - i,
    {
        if str_eq(allowed[i], k) {
            proof {
                assert(views_of(allowed@)[i as int] == k@);
            }
            return true;
        }
        i += 1;
    }
    false
}

/// Checks the closed-object shape: every key named in `allowed`, none
/// repeated.
pub fn obj_strict(entries: &Vec<(String, Json)>, allowed: &Vec<&str>) -> (r: bool)
    ensures
        r == strict_obj(entries@, views_of(allowed@)),
{
    let n = entries.len();
    let mut i: usize = 0;
    while i < n
        invariant
            0 <= i <= n,
            n == entries@.len(),
            forall|a: int| 0 <= a < i ==> key_allowed((#[trigger] entries@[a]).0@, views_of(allowed@)),
            forall|a: int, b: int|
                0 <= a < b < i ==> (#[trigger] entries@[a]).0@ != (#[trigger] entries@[b]).0@,
        decreases n - i,
    {
        if !key_in(entries[i].0.as_str(), allowed) {
            return false;
        }
        let mut j: usize = 0;
        while j < i
            invariant
                0 <= j <= i < n,
                n == entries@.len(),
                forall|b: int| 0 <= b < j ==> (#[trigger] entries@[b]).0@ != entries@[i as int].0@,
            decreases i - j,
        {
            if str_eq(entries[j].0.as_str(), entries[i].0.as_str()) {
                return false;
            }
            j += 1;
        }
        i += 1;
    }
    true
}

pub(crate) fn exec_as_u64(j: &Json) -> (r: Option<u64>)
    ensures
        r == as_u64(*j),
{
    match j {
        Json::Int(i) => {
            if *i >= 0 {
                Some(*i as u64)
            } else {
                None
            }
        },
        Json::UInt(u) => Some(*u),
        _ => None,
    }
}

pub(crate) fn exec_as_i64(j: &Json) -> (r: Option<i64>)
    ensures
        r == as_i64(*j),
{
    match j {
        Json::Int(i) => Some(*i),
        Json::UInt(u) => {
            if *u <= i64::MAX as u64 {
                Some(*u as i64)
            } else {
                None
            }
        },
        _ => None,
    }
}

/// Reads the field `key` of `entries` as an unsigned integer, exactly
/// as `req_u64` does.
pub fn get_u64(entries: &Vec<(String, Json)>, key: &str) -> (r: Option<u64>)
    ensures
        r == req_u64(entries@, key@),
{
    match obj_get(entries, key) {
        Some(v) => exec_as_u64(v),
        None => None,
    }
}

/// Reads the field `key` of `entries` as a signed integer.
pub fn get_i64(entries: &Vec<(String, Json)>, key: &str) -> (r: Option<i64>)
    ensures
        r == req_i64(entries@, key@),
{
    match obj_get(entries, key) {
        Some(v) => exec_as_i64(v),
        None => None,
    }
}

/// Reads the field `key` of `entries` as a boolean.
pub fn get_bool(entries: &Vec<(String, Json)>, key: &str) -> (r: Option<bool>)
    ensures
        r == req_bool(entries@, key@),
{
    match obj_get(entries, key) {
        Some(v) => match v {
            Json::Bool(b) => Some(*b),
            _ => None,
        },
        None => None,
    }
}

/// Reads the field `key` of `entries` as text, cloned out of the
/// document.
pub fn get_text(entries: &Vec<(String, Json)>, key: &str) -> (r: Option<String>)
    ensures
        match r {
            Some(s) => req_text(entries@, key@) == Some(s@),
            None => req_text(entries@, key@) is None,
        },
{
    match obj_get(entries, key) {
        Some(v) => match v {
            Json::Str(s) => Some(s.clone()),
            _ => None,
        },
        None => None,
    }
}

/// What the outside parser yields for a given document text: `None`
/// where the text is not valid JSON, the converted document otherwise.
pub uninterp spec fn parsed_document(s: Seq<char>) -> Option<Json>;

/// Declares serde_json::Value so the converter below can take it; the
/// type stays opaque here.
#[verifier::external_type_specification]
#[verifier::external_body]
pub struct ExValue(serde_json::Value);

/// Relies on serde_json::Value: converts the parsed document into the
/// library's model, one arm per variant, moving each field.
#[verifier::external_body]
fn json_of_value(v: serde_json::Value) -> Json {
    match v {
        serde_json::Value::Null => Json::Null,
        serde_json::Value::Bool(b) => Json::Bool(b),
        serde_json::Value::Number(n) => match (n.as_i64(), n.as_u64()) {
            (Some(i), _) => Json::Int(i),
            (None, Some(u)) => Json::UInt(u),
            (None, None) => Json::NumText(n.to_string()),
        },
        serde_json::Value::String(s) => Json::Str(s),
        serde_json::Value::Array(a) => Json::Arr(a.into_iter().map(json_of_value).collect()),
        serde_json::Value::Object(m) => {
            Json::Obj(m.into_iter().map(|(k, w)| (k, json_of_value(w))).collect())
        },
    }
}

/// Relies on serde_json::from_str: parsing is a function of the text
/// alone, returning `Err` exactly on texts that are not valid JSON.
#[verifier::external_body]
pub fn parse_document(s: &str) -> (r: Option<Json>)
    ensures
        r == parsed_document(s@),
{
    serde_json::from_str::<serde_json::Value>(s).ok().map(json_of_value)
}

} // verus!
