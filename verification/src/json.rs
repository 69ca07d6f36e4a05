//! JSON documents as `serde_json` parses them, a mathematical model of what they hold, and the
//! field readers that every record is decoded with.

use vstd::prelude::*;
use crate::error::{missing, outcome, unexpected, DecodeError, DecodeErrorView};

verus! {

/// A real number, held as the bit pattern of its IEEE-754 double.
#[derive(Debug, Clone, Copy, PartialEq, Eq)]
pub struct Real {
    pub bits: u64,
}

impl DeepView for Real {
    type V = Real;

    open spec fn deep_view(&self) -> Real {
        *self
    }
}

/// What a number of a JSON document holds.
pub struct Number {
    /// The number as an unsigned integer, where it is written as a non-negative integer that
    /// fits 64 bits.
    pub unsigned: Option<u64>,
    /// The number as a double.
    pub real: Real,
}

/// The mathematical content of a JSON document. The entries of an object stand in the order in
/// which `serde_json`'s map yields them, which is the order of their keys and not that of the
/// text.
pub enum Json {
    Null,
    Bool(bool),
    Number(Number),
    Text(Seq<char>),
    Array(Seq<Json>),
    Object(Seq<(Seq<char>, Json)>),
}

/// No key occurs twice among the entries.
pub open spec fn distinct_keys(entries: Seq<(Seq<char>, Json)>) -> bool {
    forall|i: int, j: int|
        0 <= i < j < entries.len() ==> (#[trigger] entries[i]).0 != (#[trigger] entries[j]).0
}

/// Whether `i` is the place of an entry with the key.
pub open spec fn holds_key(entries: Seq<(Seq<char>, Json)>, key: Seq<char>, i: int) -> bool {
    0 <= i < entries.len() && entries[i].0 == key
}

impl Json {
    /// The value under `key`, where this is an object that has the key.
    pub open spec fn get(self, key: Seq<char>) -> Option<Json> {
        match self {
            Json::Object(entries) => if exists|i: int| holds_key(entries, key, i) {
                Some(entries[choose|i: int| holds_key(entries, key, i)].1)
            } else {
                None
            },
            _ => None,
        }
    }

    /// The value under `key`, where this is an object that has the key with a value other than
    /// null.
    pub open spec fn member(self, key: Seq<char>) -> Option<Json> {
        match self.get(key) {
            Some(Json::Null) => None,
            found => found,
        }
    }

    /// The number as an unsigned integer, where this is one.
    pub open spec fn as_u64(self) -> Option<u64> {
        match self {
            Json::Number(n) => n.unsigned,
            _ => None,
        }
    }

    /// The number as a real, where this is a number.
    pub open spec fn as_real(self) -> Option<Real> {
        match self {
            Json::Number(n) => Some(n.real),
            _ => None,
        }
    }

    /// The truth value, where this is one.
    pub open spec fn as_bool(self) -> Option<bool> {
        match self {
            Json::Bool(b) => Some(b),
            _ => None,
        }
    }

    /// The text, where this is a string.
    pub open spec fn as_text(self) -> Option<Seq<char>> {
        match self {
            Json::Text(s) => Some(s),
            _ => None,
        }
    }
}

#[verifier::external_type_specification]
#[verifier::external_body]
pub struct ExValue(serde_json::Value);

/// What a parsed document holds.
pub uninterp spec fn tree(v: serde_json::Value) -> Json;

/// What `serde_json` makes of a text: the document, or the message of its refusal.
pub uninterp spec fn parsed(text: Seq<char>) -> Result<Json, Seq<char>>;

/// What each of a run of parsed documents holds.
pub open spec fn trees(values: Seq<serde_json::Value>) -> Seq<Json> {
    Seq::new(values.len(), |i: int| tree(values[i]))
}

/// `serde_json::from_str` at `serde_json::Value`: the document that the text denotes, or the
/// message of the error where the text is no JSON document. The result depends on the text
/// alone.
#[verifier::external_body]
pub(crate) fn value_from_str(text: &str) -> (r: Result<serde_json::Value, String>)
    ensures
        match r {
            Ok(v) => parsed(text@) == Ok::<Json, Seq<char>>(tree(v)),
            Err(m) => parsed(text@) == Err::<Json, Seq<char>>(m@),
        },
{
    match serde_json::from_str::<serde_json::Value>(text) {
        Ok(v) => Ok(v),
        Err(e) => Err(e.to_string()),
    }
}

/// `serde_json::Value::get` with a string index: the value under the key where the document
/// is an object that has the key, and nothing otherwise.
#[verifier::external_body]
pub(crate) fn value_get<'a>(v: &'a serde_json::Value, key: &str) -> (r: Option<
    &'a serde_json::Value,
>)
    ensures
        match r {
            Some(x) => tree(*v).get(key@) == Some(tree(*x)),
            None => tree(*v).get(key@) is None,
        },
{
    v.get(key)
}

/// `serde_json::Value::is_null`.
#[verifier::external_body]
pub(crate) fn value_is_null(v: &serde_json::Value) -> (r: bool)
    ensures
        r == (tree(*v) is Null),
{
    v.is_null()
}

/// `serde_json::Value::is_object`.
#[verifier::external_body]
pub(crate) fn value_is_object(v: &serde_json::Value) -> (r: bool)
    ensures
        r == (tree(*v) is Object),
{
    v.is_object()
}

/// `serde_json::Value::as_bool`: the truth value, where the document is one.
#[verifier::external_body]
pub(crate) fn value_as_bool(v: &serde_json::Value) -> (r: Option<bool>)
    ensures
        r == tree(*v).as_bool(),
{
    v.as_bool()
}

/// `serde_json::Value::as_u64`: the number, where the document is a number written as a
/// non-negative integer that fits 64 bits.
#[verifier::external_body]
pub(crate) fn value_as_u64(v: &serde_json::Value) -> (r: Option<u64>)
    ensures
        r == tree(*v).as_u64(),
{
    v.as_u64()
}

/// `serde_json::Value::as_f64`, then `to_bits`: the number as a double, where the document is
/// a number of any kind.
#[verifier::external_body]
pub(crate) fn value_as_real(v: &serde_json::Value) -> (r: Option<Real>)
    ensures
        r == tree(*v).as_real(),
{
    match v.as_f64() {
        Some(x) => Some(Real { bits: x.to_bits() }),
        None => None,
    }
}

/// `serde_json::Value::as_str`: the text, where the document is a string.
#[verifier::external_body]
pub(crate) fn value_as_str<'a>(v: &'a serde_json::Value) -> (r: Option<&'a str>)
    ensures
        match r {
            Some(s) => tree(*v).as_text() == Some(s@),
            None => tree(*v).as_text() is None,
        },
{
    v.as_str()
}

/// `serde_json::Value::as_array`: the items in their order, where the document is an array.
#[verifier::external_body]
pub(crate) fn value_as_array<'a>(v: &'a serde_json::Value) -> (r: Option<
    &'a Vec<serde_json::Value>,
>)
    ensures
        match r {
            Some(items) => tree(*v) == Json::Array(trees(items@)),
            None => !(tree(*v) is Array),
        },
{
    v.as_array()
}

/// `serde_json::Value::as_object`, then `serde_json::Map::keys`: the keys of the entries in the
/// order in which the map yields them, where the document is an object. A map holds no key
/// twice.
#[verifier::external_body]
pub(crate) fn value_keys(v: &serde_json::Value) -> (r: Option<Vec<String>>)
    ensures
        match r {
            Some(keys) => tree(*v) matches Json::Object(entries) && distinct_keys(entries)
                && keys.deep_view() == Seq::new(entries.len(), |i: int| entries[i].0),
            None => !(tree(*v) is Object),
        },
{
    match v.as_object() {
        Some(map) => Some(map.keys().cloned().collect()),
        None => None,
    }
}

/// Whether two texts are the same.
pub fn same_text(a: &str, b: &str) -> (r: bool)
    ensures
        r == (a@ == b@),
{
    let left = a.to_owned();
    let right = b.to_owned();
    left == right
}

/// Parses a text as a JSON document.
pub fn parse(text: &str) -> (r: Result<serde_json::Value, DecodeError>)
    ensures
        match r {
            Ok(v) => parsed(text@) == Ok::<Json, Seq<char>>(tree(v)),
            Err(e) => parsed(text@) == Err::<Json, Seq<char>>(e->Syntax_0@) && e is Syntax,
        },
{
    match value_from_str(text) {
        Ok(v) => Ok(v),
        Err(m) => Err(DecodeError::Syntax(m)),
    }
}

/// Among entries with distinct keys, the value under the key of the entry at `i` is that
/// entry's value.
pub proof fn lemma_get_entry(entries: Seq<(Seq<char>, Json)>, i: int)
    requires
        distinct_keys(entries),
        0 <= i < entries.len(),
    ensures
        Json::Object(entries).get(entries[i].0) == Some(entries[i].1),
{
    let key = entries[i].0;
    assert(holds_key(entries, key, i));
    let c = choose|c: int| holds_key(entries, key, c);
    assert(holds_key(entries, key, c));
    if c < i {
        assert(entries[c].0 != entries[i].0);
    } else if i < c {
        assert(entries[i].0 != entries[c].0);
    }
}

/// An object of one entry holds that entry's value under its key, and nothing under another.
pub proof fn lemma_get_single(key: Seq<char>, value: Json, other: Seq<char>)
    ensures
        Json::Object(seq![(key, value)]).get(key) == Some(value),
        other != key ==> Json::Object(seq![(key, value)]).get(other) is None,
{
    let entries = seq![(key, value)];
    assert(entries[0] == (key, value));
    assert(distinct_keys(entries));
    lemma_get_entry(entries, 0);
    if other != key {
        assert(forall|i: int| !holds_key(entries, other, i));
    }
}

/// The object with one entry more.
pub open spec fn with_entry(entries: Seq<(Seq<char>, Json)>, key: Seq<char>, value: Json) -> Json {
    Json::Object(entries.push((key, value)))
}

/// An entry under a new key changes nothing of what an object holds under its other keys.
pub proof fn lemma_get_beside_entry(entries: Seq<(Seq<char>, Json)>, key: Seq<char>, value: Json)
    requires
        distinct_keys(entries.push((key, value))),
    ensures
        forall|other: Seq<char>|
            other != key ==> #[trigger] with_entry(entries, key, value).get(other)
                == Json::Object(entries).get(other),
        forall|other: Seq<char>|
            other != key ==> #[trigger] with_entry(entries, key, value).member(other)
                == Json::Object(entries).member(other),
{
    let more = entries.push((key, value));
    assert forall|other: Seq<char>| other != key implies #[trigger] with_entry(
        entries,
        key,
        value,
    ).get(other) == Json::Object(entries).get(other) by {
        if exists|i: int| holds_key(more, other, i) {
            let m = choose|i: int| holds_key(more, other, i);
            assert(m < entries.len());
            assert(more[m] == entries[m]);
            assert(holds_key(entries, other, m));
            let e = choose|i: int| holds_key(entries, other, i);
            assert(more[e] == entries[e]);
            if e < m {
                assert(more[e].0 != more[m].0);
            } else if m < e {
                assert(more[m].0 != more[e].0);
            }
        } else {
            assert forall|i: int| !holds_key(entries, other, i) by {
                if holds_key(entries, other, i) {
                    assert(more[i] == entries[i]);
                    assert(holds_key(more, other, i));
                }
            }
        }
    }
}

/// The entries of an object, in the order of the parsed map: each key with its value.
pub fn object_entries<'a>(v: &'a serde_json::Value) -> (r: Option<
    Vec<(String, &'a serde_json::Value)>,
>)
    ensures
        match r {
            Some(list) => tree(*v) matches Json::Object(entries) && distinct_keys(entries)
                && list.len() == entries.len() && forall|i: int|
                0 <= i < list.len() ==> (#[trigger] list[i]).0@ == entries[i].0 && tree(
                    *list[i].1,
                ) == entries[i].1,
            None => !(tree(*v) is Object),
        },
{
    let keys = match value_keys(v) {
        Some(keys) => keys,
        None => { return None; },
    };
    let ghost entries = tree(*v)->Object_0;
    let mut list: Vec<(String, &'a serde_json::Value)> = Vec::new();
    let mut i: usize = 0;
    while i < keys.len()
        invariant
            i <= keys.len(),
            tree(*v) == Json::Object(entries),
            distinct_keys(entries),
            keys.deep_view() == Seq::new(entries.len(), |k: int| entries[k].0),
            list.len() == i,
            forall|k: int|
                0 <= k < i ==> (#[trigger] list[k]).0@ == entries[k].0 && tree(*list[k].1)
                    == entries[k].1,
        decreases keys.len() - i,
    {
        let key = keys[i].clone();
        proof {
            assert(keys.deep_view().len() == entries.len());
            assert(keys.deep_view()[i as int] == entries[i as int].0);
            assert(key@ == entries[i as int].0);
            lemma_get_entry(entries, i as int);
        }
        match value_get(v, key.as_str()) {
            Some(x) => {
                list.push((key, x));
            },
            None => {
                assert(false);
            },
        }
        i += 1;
    }
    proof {
        assert(keys.deep_view().len() == entries.len());
    }
    Some(list)
}

/// A required unsigned integer field.
pub open spec fn req_u64(j: Json, key: Seq<char>) -> Result<u64, DecodeErrorView> {
    match j.get(key) {
        None => Err(DecodeErrorView::MissingField(key)),
        Some(x) => match x.as_u64() {
            Some(n) => Ok(n),
            None => Err(DecodeErrorView::UnexpectedShape(key)),
        },
    }
}

/// An optional unsigned integer field: absent and null are both nothing.
pub open spec fn opt_u64(j: Json, key: Seq<char>) -> Result<Option<u64>, DecodeErrorView> {
    match j.member(key) {
        None => Ok(None),
        Some(x) => match x.as_u64() {
            Some(n) => Ok(Some(n)),
            None => Err(DecodeErrorView::UnexpectedShape(key)),
        },
    }
}

/// A required truth-value field.
pub open spec fn req_bool(j: Json, key: Seq<char>) -> Result<bool, DecodeErrorView> {
    match j.get(key) {
        None => Err(DecodeErrorView::MissingField(key)),
        Some(x) => match x.as_bool() {
            Some(b) => Ok(b),
            None => Err(DecodeErrorView::UnexpectedShape(key)),
        },
    }
}

/// An optional truth-value field.
pub open spec fn opt_bool(j: Json, key: Seq<char>) -> Result<Option<bool>, DecodeErrorView> {
    match j.member(key) {
        None => Ok(None),
        Some(x) => match x.as_bool() {
            Some(b) => Ok(Some(b)),
            None => Err(DecodeErrorView::UnexpectedShape(key)),
        },
    }
}

/// A required real-number field; an integer is read as a real.
pub open spec fn req_real(j: Json, key: Seq<char>) -> Result<Real, DecodeErrorView> {
    match j.get(key) {
        None => Err(DecodeErrorView::MissingField(key)),
        Some(x) => match x.as_real() {
            Some(n) => Ok(n),
            None => Err(DecodeErrorView::UnexpectedShape(key)),
        },
    }
}

/// An optional real-number field.
pub open spec fn opt_real(j: Json, key: Seq<char>) -> Result<Option<Real>, DecodeErrorView> {
    match j.member(key) {
        None => Ok(None),
        Some(x) => match x.as_real() {
            Some(n) => Ok(Some(n)),
            None => Err(DecodeErrorView::UnexpectedShape(key)),
        },
    }
}

/// A required text field.
pub open spec fn req_text(j: Json, key: Seq<char>) -> Result<Seq<char>, DecodeErrorView> {
    match j.get(key) {
        None => Err(DecodeErrorView::MissingField(key)),
        Some(x) => match x.as_text() {
            Some(s) => Ok(s),
            None => Err(DecodeErrorView::UnexpectedShape(key)),
        },
    }
}

/// An optional text field.
pub open spec fn opt_text(j: Json, key: Seq<char>) -> Result<Option<Seq<char>>, DecodeErrorView> {
    match j.member(key) {
        None => Ok(None),
        Some(x) => match x.as_text() {
            Some(s) => Ok(Some(s)),
            None => Err(DecodeErrorView::UnexpectedShape(key)),
        },
    }
}

/// A required array field: its items.
pub open spec fn req_array(j: Json, key: Seq<char>) -> Result<Seq<Json>, DecodeErrorView> {
    match j.get(key) {
        None => Err(DecodeErrorView::MissingField(key)),
        Some(Json::Array(items)) => Ok(items),
        Some(_) => Err(DecodeErrorView::UnexpectedShape(key)),
    }
}

/// An optional array field: its items.
pub open spec fn opt_array(j: Json, key: Seq<char>) -> Result<Option<Seq<Json>>, DecodeErrorView> {
    match j.member(key) {
        None => Ok(None),
        Some(Json::Array(items)) => Ok(Some(items)),
        Some(_) => Err(DecodeErrorView::UnexpectedShape(key)),
    }
}

/// The member under `key`: the value, unless it is absent or null.
pub fn optional_value<'a>(v: &'a serde_json::Value, key: &str) -> (r: Option<
    &'a serde_json::Value,
>)
    ensures
        match r {
            Some(x) => tree(*v).member(key@) == Some(tree(*x)),
            None => tree(*v).member(key@) is None,
        },
{
    match value_get(v, key) {
        Some(x) => if value_is_null(x) {
            None
        } else {
            Some(x)
        },
        None => None,
    }
}

/// Reads a required field that holds an unsigned integer.
pub fn required_u64(v: &serde_json::Value, key: &str) -> (r: Result<u64, DecodeError>)
    ensures
        outcome(r) == req_u64(tree(*v), key@),
{
    match value_get(v, key) {
        None => Err(missing(key)),
        Some(x) => match value_as_u64(x) {
            Some(n) => Ok(n),
            None => Err(unexpected(key)),
        },
    }
}

/// Reads an optional field that holds an unsigned integer.
pub fn optional_u64(v: &serde_json::Value, key: &str) -> (r: Result<Option<u64>, DecodeError>)
    ensures
        outcome(r) == opt_u64(tree(*v), key@),
{
    match optional_value(v, key) {
        None => Ok(None),
        Some(x) => match value_as_u64(x) {
            Some(n) => Ok(Some(n)),
            None => Err(unexpected(key)),
        },
    }
}

/// Reads a required field that holds a truth value.
pub fn required_bool(v: &serde_json::Value, key: &str) -> (r: Result<bool, DecodeError>)
    ensures
        outcome(r) == req_bool(tree(*v), key@),
{
    match value_get(v, key) {
        None => Err(missing(key)),
        Some(x) => match value_as_bool(x) {
            Some(b) => Ok(b),
            None => Err(unexpected(key)),
        },
    }
}

/// Reads an optional field that holds a truth value.
pub fn optional_bool(v: &serde_json::Value, key: &str) -> (r: Result<Option<bool>, DecodeError>)
    ensures
        outcome(r) == opt_bool(tree(*v), key@),
{
    match optional_value(v, key) {
        None => Ok(None),
        Some(x) => match value_as_bool(x) {
            Some(b) => Ok(Some(b)),
            None => Err(unexpected(key)),
        },
    }
}

/// Reads a required field that holds a real number.
pub fn required_real(v: &serde_json::Value, key: &str) -> (r: Result<Real, DecodeError>)
    ensures
        outcome(r) == req_real(tree(*v), key@),
{
    match value_get(v, key) {
        None => Err(missing(key)),
        Some(x) => match value_as_real(x) {
            Some(n) => Ok(n),
            None => Err(unexpected(key)),
        },
    }
}

/// Reads an optional field that holds a real number.
pub fn optional_real(v: &serde_json::Value, key: &str) -> (r: Result<Option<Real>, DecodeError>)
    ensures
        outcome(r) == opt_real(tree(*v), key@),
{
    match optional_value(v, key) {
        None => Ok(None),
        Some(x) => match value_as_real(x) {
            Some(n) => Ok(Some(n)),
            None => Err(unexpected(key)),
        },
    }
}

/// Reads a required field that holds a text.
pub fn required_text(v: &serde_json::Value, key: &str) -> (r: Result<String, DecodeError>)
    ensures
        outcome(r) == req_text(tree(*v), key@),
{
    match value_get(v, key) {
        None => Err(missing(key)),
        Some(x) => match value_as_str(x) {
            Some(s) => Ok(s.to_owned()),
            None => Err(unexpected(key)),
        },
    }
}

/// Reads an optional field that holds a text.
pub fn optional_text(v: &serde_json::Value, key: &str) -> (r: Result<Option<String>, DecodeError>)
    ensures
        outcome(r) == opt_text(tree(*v), key@),
{
    match optional_value(v, key) {
        None => Ok(None),
        Some(x) => match value_as_str(x) {
            Some(s) => Ok(Some(s.to_owned())),
            None => Err(unexpected(key)),
        },
    }
}

/// Reads a required field that holds an array: its items.
pub fn required_array<'a>(v: &'a serde_json::Value, key: &str) -> (r: Result<
    &'a Vec<serde_json::Value>,
    DecodeError,
>)
    ensures
        match r {
            Ok(items) => req_array(tree(*v), key@) == Ok::<Seq<Json>, DecodeErrorView>(
                trees(items@),
            ),
            Err(e) => req_array(tree(*v), key@) == Err::<Seq<Json>, DecodeErrorView>(
                e.deep_view(),
            ),
        },
{
    match value_get(v, key) {
        None => Err(missing(key)),
        Some(x) => match value_as_array(x) {
            Some(items) => Ok(items),
            None => Err(unexpected(key)),
        },
    }
}

/// Reads an optional field that holds an array: its items.
pub fn optional_array<'a>(v: &'a serde_json::Value, key: &str) -> (r: Result<
    Option<&'a Vec<serde_json::Value>>,
    DecodeError,
>)
    ensures
        match r {
            Ok(Some(items)) => opt_array(tree(*v), key@) == Ok::<
                Option<Seq<Json>>,
                DecodeErrorView,
            >(Some(trees(items@))),
            Ok(None) => opt_array(tree(*v), key@) == Ok::<Option<Seq<Json>>, DecodeErrorView>(
                None,
            ),
            Err(e) => opt_array(tree(*v), key@) == Err::<Option<Seq<Json>>, DecodeErrorView>(
                e.deep_view(),
            ),
        },
{
    match optional_value(v, key) {
        None => Ok(None),
        Some(x) => match value_as_array(x) {
            Some(items) => Ok(Some(items)),
            None => Err(unexpected(key)),
        },
    }
}

/// The place of the first failure in a run of results.
pub open spec fn is_first_error<T>(results: Seq<Result<T, DecodeErrorView>>, i: int) -> bool {
    0 <= i < results.len() && results[i] is Err && forall|j: int|
        0 <= j < i ==> (#[trigger] results[j]) is Ok
}

/// All the values where every result is a success, in their order; else the first failure.
pub open spec fn collect<T>(results: Seq<Result<T, DecodeErrorView>>) -> Result<
    Seq<T>,
    DecodeErrorView,
> {
    if forall|i: int| 0 <= i < results.len() ==> (#[trigger] results[i]) is Ok {
        Ok(Seq::new(results.len(), |i: int| results[i]->Ok_0))
    } else {
        Err(results[choose|i: int| is_first_error(results, i)]->Err_0)
    }
}

/// A run of results with a failure at `i` and none before it collects to that failure.
pub proof fn lemma_collect_err<T>(results: Seq<Result<T, DecodeErrorView>>, i: int)
    requires
        is_first_error(results, i),
    ensures
        collect(results) == Err::<Seq<T>, DecodeErrorView>(results[i]->Err_0),
{
    let c = choose|c: int| is_first_error(results, c);
    assert(is_first_error(results, c));
    if c < i {
        assert(results[c] is Ok);
    } else if i < c {
        assert(results[i] is Ok);
    }
}

/// A run of successes collects to their values.
pub proof fn lemma_collect_ok<T>(results: Seq<Result<T, DecodeErrorView>>, values: Seq<T>)
    requires
        values.len() == results.len(),
        forall|i: int|
            0 <= i < results.len() ==> (#[trigger] results[i]) == Ok::<T, DecodeErrorView>(
                values[i],
            ),
    ensures
        collect(results) == Ok::<Seq<T>, DecodeErrorView>(values),
{
    assert(Seq::new(results.len(), |i: int| results[i]->Ok_0) =~= values);
}

} // verus!
