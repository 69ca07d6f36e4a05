//! Reading records from parsed documents: the rule that each kind of record states, and the
//! readers for lists and keyed tables that follow from it.

use std::collections::HashMap;
use vstd::prelude::*;
use vstd::std_specs::hash::lemma_hashmap_deepview_properties;
use crate::decimal::{natural_u64, parse_u64};
use crate::error::{invalid, missing, outcome, unexpected, DecodeError, DecodeErrorView};
use crate::json::{
    collect, distinct_keys, lemma_collect_err, lemma_collect_ok, object_entries, opt_array,
    optional_array, optional_value, parse, parsed, req_array, required_array, tree, trees,
    value_as_array, value_as_real, value_as_str, value_as_u64, value_get, value_keys, Json,
    Real,
};

verus! {

/// A kind of record that is read from a JSON document.
pub trait Decode: DeepView + Sized {
    /// What a document decodes to: the record's content, or the reason why it is none.
    spec fn decoded(j: Json) -> Result<Self::V, DecodeErrorView>;

    /// What holds of every record that was read from a document.
    spec fn wf(&self) -> bool;

    /// Reads the record from a parsed document.
    fn from_value(v: &serde_json::Value) -> (r: Result<Self, DecodeError>)
        ensures
            outcome(r) == Self::decoded(tree(*v)),
            r matches Ok(record) ==> record.wf(),
    ;
}

/// A kind of record that is read from the fields of an object.
pub trait Record: Decode {
    /// Whether `key` is one of the keys that the record is read from.
    spec fn reads(key: Seq<char>) -> bool;

    /// Tells whether `key` is one of the keys that the record is read from.
    fn reads_key(key: &str) -> (r: bool)
        ensures
            r == Self::reads(key@),
    ;
}

/// Whether the entry at `i` stands under one of the keys that the record is read from.
pub open spec fn reads_at<T: Record>(entries: Seq<(Seq<char>, Json)>, i: int) -> bool {
    0 <= i < entries.len() && T::reads(entries[i].0)
}

/// Whether an object has an entry under one of the keys that the record is read from.
pub open spec fn holds_field<T: Record>(j: Json) -> bool {
    match j {
        Json::Object(entries) => exists|i: int| reads_at::<T>(entries, i),
        _ => false,
    }
}

/// Tells whether an object has an entry under one of the keys that the record is read from.
pub fn has_field<T: Record>(v: &serde_json::Value) -> (r: bool)
    ensures
        r == holds_field::<T>(tree(*v)),
{
    let keys = match value_keys(v) {
        Some(keys) => keys,
        None => {
            return false;
        },
    };
    let ghost entries = tree(*v)->Object_0;
    let mut i: usize = 0;
    proof {
        assert(keys.deep_view().len() == entries.len());
    }
    while i < keys.len()
        invariant
            i <= keys.len(),
            keys.len() == entries.len(),
            tree(*v) == Json::Object(entries),
            keys.deep_view() == Seq::new(entries.len(), |k: int| entries[k].0),
            forall|k: int| 0 <= k < i ==> !reads_at::<T>(entries, k),
        decreases keys.len() - i,
    {
        proof {
            assert(keys.deep_view()[i as int] == entries[i as int].0);
            assert(keys.deep_view()[i as int] == keys@[i as int]@);
        }
        if T::reads_key(keys[i].as_str()) {
            proof {
                assert(reads_at::<T>(entries, i as int));
                assert(Json::Object(entries)->Object_0 == entries);
            }
            return true;
        }
        i += 1;
    }
    false
}

/// Every record of the list is well formed.
pub open spec fn all_wf<T: Decode>(list: Seq<T>) -> bool {
    forall|i: int| 0 <= i < list.len() ==> (#[trigger] list[i]).wf()
}

/// No key occurs twice in a table.
pub open spec fn unique_keys<K, T>(table: Seq<(K, T)>) -> bool {
    forall|i: int, j: int|
        0 <= i < j < table.len() ==> (#[trigger] table[i]).0 != (#[trigger] table[j]).0
}

/// Every record of the table is well formed.
pub open spec fn all_values_wf<K, T: Decode>(table: Seq<(K, T)>) -> bool {
    forall|i: int| 0 <= i < table.len() ==> (#[trigger] table[i]).1.wf()
}

/// A table keyed by a number holds only well-formed records.
pub open spec fn timeline_wf<T: Decode>(table: HashMap<u64, T>) -> bool {
    forall|key: u64| table@.contains_key(key) ==> (#[trigger] table@[key]).wf()
}

/// A table keyed by text holds no key twice, and only well-formed records.
pub open spec fn table_wf<T: Decode>(table: Vec<(String, T)>) -> bool {
    unique_keys(table.deep_view()) && all_values_wf(table@)
}

/// What each item of a list decodes to.
pub open spec fn decoded_items<T: Decode>(items: Seq<Json>) -> Seq<Result<T::V, DecodeErrorView>> {
    Seq::new(items.len(), |i: int| T::decoded(items[i]))
}

/// What a list decodes to: every item's record in order, or the first item's failure.
pub open spec fn decoded_list<T: Decode>(items: Seq<Json>) -> Result<Seq<T::V>, DecodeErrorView> {
    collect(decoded_items::<T>(items))
}

/// Reads every item of a list.
pub fn list_from_values<T: Decode>(items: &Vec<serde_json::Value>) -> (r: Result<
    Vec<T>,
    DecodeError,
>)
    ensures
        outcome(r) == decoded_list::<T>(trees(items@)),
        r matches Ok(list) ==> all_wf(list@),
{
    let ghost results = decoded_items::<T>(trees(items@));
    let mut out: Vec<T> = Vec::new();
    let mut i: usize = 0;
    while i < items.len()
        invariant
            i <= items.len(),
            out.len() == i,
            all_wf(out@),
            results == decoded_items::<T>(trees(items@)),
            forall|k: int|
                0 <= k < i ==> (#[trigger] results[k]) == Ok::<T::V, DecodeErrorView>(
                    out[k].deep_view(),
                ),
        decreases items.len() - i,
    {
        match T::from_value(&items[i]) {
            Ok(x) => {
                out.push(x);
            },
            Err(e) => {
                proof {
                    assert(results[i as int] == Err::<T::V, DecodeErrorView>(e.deep_view()));
                    lemma_collect_err(results, i as int);
                }
                return Err(e);
            },
        }
        i += 1;
    }
    proof {
        lemma_collect_ok(results, out.deep_view());
    }
    Ok(out)
}

/// A required field that holds a record.
pub open spec fn req_record<T: Decode>(j: Json, key: Seq<char>) -> Result<T::V, DecodeErrorView> {
    match j.get(key) {
        None => Err(DecodeErrorView::MissingField(key)),
        Some(x) => T::decoded(x),
    }
}

/// An optional field that holds a record: absent and null are both nothing.
pub open spec fn opt_record<T: Decode>(j: Json, key: Seq<char>) -> Result<
    Option<T::V>,
    DecodeErrorView,
> {
    match j.member(key) {
        None => Ok(None),
        Some(x) => match T::decoded(x) {
            Ok(record) => Ok(Some(record)),
            Err(e) => Err(e),
        },
    }
}

/// A required field that holds a list of records.
pub open spec fn req_list<T: Decode>(j: Json, key: Seq<char>) -> Result<
    Seq<T::V>,
    DecodeErrorView,
> {
    match req_array(j, key) {
        Ok(items) => decoded_list::<T>(items),
        Err(e) => Err(e),
    }
}

/// An optional field that holds a list of records.
pub open spec fn opt_list<T: Decode>(j: Json, key: Seq<char>) -> Result<
    Option<Seq<T::V>>,
    DecodeErrorView,
> {
    match opt_array(j, key) {
        Ok(Some(items)) => match decoded_list::<T>(items) {
            Ok(list) => Ok(Some(list)),
            Err(e) => Err(e),
        },
        Ok(None) => Ok(None),
        Err(e) => Err(e),
    }
}

/// Reads a required field that holds a record.
pub fn required_record<T: Decode>(v: &serde_json::Value, key: &str) -> (r: Result<T, DecodeError>)
    ensures
        outcome(r) == req_record::<T>(tree(*v), key@),
        r matches Ok(record) ==> record.wf(),
{
    match value_get(v, key) {
        None => Err(missing(key)),
        Some(x) => T::from_value(x),
    }
}

/// Reads an optional field that holds a record.
pub fn optional_record<T: Decode>(v: &serde_json::Value, key: &str) -> (r: Result<
    Option<T>,
    DecodeError,
>)
    ensures
        outcome(r) == opt_record::<T>(tree(*v), key@),
        r matches Ok(Some(record)) ==> record.wf(),
{
    match optional_value(v, key) {
        None => Ok(None),
        Some(x) => match T::from_value(x) {
            Ok(record) => Ok(Some(record)),
            Err(e) => Err(e),
        },
    }
}

/// Reads a required field that holds a list of records.
pub fn required_list<T: Decode>(v: &serde_json::Value, key: &str) -> (r: Result<
    Vec<T>,
    DecodeError,
>)
    ensures
        outcome(r) == req_list::<T>(tree(*v), key@),
        r matches Ok(list) ==> all_wf(list@),
{
    let items = required_array(v, key)?;
    list_from_values::<T>(items)
}

/// Reads an optional field that holds a list of records.
pub fn optional_list<T: Decode>(v: &serde_json::Value, key: &str) -> (r: Result<
    Option<Vec<T>>,
    DecodeError,
>)
    ensures
        outcome(r) == opt_list::<T>(tree(*v), key@),
        r matches Ok(Some(list)) ==> all_wf(list@),
{
    match optional_array(v, key)? {
        Some(items) => match list_from_values::<T>(items) {
            Ok(list) => Ok(Some(list)),
            Err(e) => Err(e),
        },
        None => Ok(None),
    }
}

/// What each entry of a keyed table decodes to: the key with the value's record.
pub open spec fn decoded_entries<T: Decode>(entries: Seq<(Seq<char>, Json)>) -> Seq<
    Result<(Seq<char>, T::V), DecodeErrorView>,
> {
    Seq::new(
        entries.len(),
        |i: int|
            match T::decoded(entries[i].1) {
                Ok(record) => Ok((entries[i].0, record)),
                Err(e) => Err(e),
            },
    )
}

/// What an object decodes to as a table keyed by text: every entry in the order of the parsed
/// map, or the failure of the first entry in that order.
pub open spec fn decoded_table<T: Decode>(j: Json) -> Result<
    Seq<(Seq<char>, T::V)>,
    DecodeErrorView,
> {
    match j {
        Json::Object(entries) => collect(decoded_entries::<T>(entries)),
        _ => Err(DecodeErrorView::UnexpectedShape("object"@)),
    }
}

/// Reads an object as a table keyed by text. No key occurs twice in the result.
pub fn table_from_value<T: Decode>(v: &serde_json::Value) -> (r: Result<
    Vec<(String, T)>,
    DecodeError,
>)
    ensures
        outcome(r) == decoded_table::<T>(tree(*v)),
        r matches Ok(table) ==> table_wf(table),
{
    let list = match object_entries(v) {
        Some(list) => list,
        None => {
            return Err(unexpected("object"));
        },
    };
    let ghost entries = tree(*v)->Object_0;
    let ghost results = decoded_entries::<T>(entries);
    let mut out: Vec<(String, T)> = Vec::new();
    let mut i: usize = 0;
    while i < list.len()
        invariant
            i <= list.len(),
            out.len() == i,
            list.len() == entries.len(),
            all_values_wf(out@),
            tree(*v) == Json::Object(entries),
            distinct_keys(entries),
            results == decoded_entries::<T>(entries),
            forall|k: int|
                0 <= k < list.len() ==> (#[trigger] list[k]).0@ == entries[k].0 && tree(
                    *list[k].1,
                ) == entries[k].1,
            forall|k: int|
                0 <= k < i ==> (#[trigger] results[k]) == Ok::<
                    (Seq<char>, T::V),
                    DecodeErrorView,
                >(out[k].deep_view()),
        decreases list.len() - i,
    {
        let key = list[i].0.clone();
        match T::from_value(list[i].1) {
            Ok(record) => {
                out.push((key, record));
            },
            Err(e) => {
                proof {
                    assert(results[i as int] == Err::<(Seq<char>, T::V), DecodeErrorView>(
                        e.deep_view(),
                    ));
                    lemma_collect_err(results, i as int);
                }
                return Err(e);
            },
        }
        i += 1;
    }
    proof {
        lemma_collect_ok(results, out.deep_view());
        let table = out.deep_view();
        assert forall|a: int, b: int| 0 <= a < b < table.len() implies (#[trigger] table[a]).0
            != (#[trigger] table[b]).0 by {
            assert(results[a] == Ok::<(Seq<char>, T::V), DecodeErrorView>(table[a]));
            assert(results[b] == Ok::<(Seq<char>, T::V), DecodeErrorView>(table[b]));
            assert(entries[a].0 != entries[b].0);
        }
    }
    Ok(out)
}

/// What each entry of a table keyed by a number decodes to: the number that the key spells with
/// the value's record. A key that spells no such number is an invalid value.
pub open spec fn decoded_timed<T: Decode>(entries: Seq<(Seq<char>, Json)>) -> Seq<
    Result<(u64, T::V), DecodeErrorView>,
> {
    Seq::new(
        entries.len(),
        |i: int|
            match natural_u64(entries[i].0) {
                None => Err(DecodeErrorView::InvalidValue(entries[i].0)),
                Some(at) => match T::decoded(entries[i].1) {
                    Ok(record) => Ok((at, record)),
                    Err(e) => Err(e),
                },
            },
    )
}

/// The table that holds each pair's value under its key.
pub open spec fn pairs_map<V>(pairs: Seq<(u64, V)>) -> Map<u64, V>
    decreases pairs.len(),
{
    if pairs.len() == 0 {
        Map::empty()
    } else {
        pairs_map(pairs.drop_last()).insert(pairs.last().0, pairs.last().1)
    }
}

/// What an object decodes to as a table keyed by a number written as text, such as a time in
/// seconds: the table of every entry, or the failure of the first entry in the order of the
/// parsed map.
pub open spec fn decoded_timeline<T: Decode>(j: Json) -> Result<Map<u64, T::V>, DecodeErrorView> {
    match j {
        Json::Object(entries) => match collect(decoded_timed::<T>(entries)) {
            Ok(pairs) => Ok(pairs_map(pairs)),
            Err(e) => Err(e),
        },
        _ => Err(DecodeErrorView::UnexpectedShape("object"@)),
    }
}

/// A table that gains an entry gains its content in the table's content.
proof fn lemma_insert_deep_view<T: DeepView>(
    before: HashMap<u64, T>,
    after: HashMap<u64, T>,
    key: u64,
    value: T,
)
    requires
        after@ == before@.insert(key, value),
    ensures
        after.deep_view() == before.deep_view().insert(key, value.deep_view()),
{
    assert(vstd::relations::injective(|k: u64| k.deep_view()));
    lemma_hashmap_deepview_properties(before);
    lemma_hashmap_deepview_properties(after);
    let wanted = before.deep_view().insert(key, value.deep_view());
    assert forall|k: u64| after.deep_view().contains_key(k) == wanted.contains_key(k) by {
        if after.deep_view().contains_key(k) {
            let orig = choose|orig: u64|
                orig.deep_view() == k && #[trigger] after@.contains_key(orig);
            assert(orig == k);
            if k != key {
                assert(before@.contains_key(k));
            }
        }
        if wanted.contains_key(k) {
            if k != key {
                assert(before.deep_view().contains_key(k));
                let orig = choose|orig: u64|
                    orig.deep_view() == k && #[trigger] before@.contains_key(orig);
                assert(orig == k);
                assert(after@.contains_key(k));
            } else {
                assert(after@.contains_key(key));
            }
        }
    }
    assert forall|k: u64| after.deep_view().contains_key(k) implies after.deep_view()[k]
        == wanted[k] by {
        let orig = choose|orig: u64| orig.deep_view() == k && #[trigger] after@.contains_key(orig);
        assert(orig == k);
        assert(after@.contains_key(k));
        if k != key {
            assert(before@.contains_key(k));
        }
    }
    assert(after.deep_view() =~= wanted);
}

/// Reads an object as a table keyed by a number written as text.
pub fn timeline_from_value<T: Decode>(v: &serde_json::Value) -> (r: Result<
    HashMap<u64, T>,
    DecodeError,
>)
    ensures
        outcome(r) == decoded_timeline::<T>(tree(*v)),
        r matches Ok(table) ==> timeline_wf(table),
{
    broadcast use vstd::std_specs::hash::group_hash_axioms;

    let list = match object_entries(v) {
        Some(list) => list,
        None => {
            return Err(unexpected("object"));
        },
    };
    let ghost entries = tree(*v)->Object_0;
    let ghost results = decoded_timed::<T>(entries);
    let ghost mut done: Seq<(u64, T::V)> = Seq::empty();
    let mut out: HashMap<u64, T> = HashMap::new();
    let mut i: usize = 0;
    proof {
        lemma_hashmap_deepview_properties(out);
        assert(vstd::relations::injective(|k: u64| k.deep_view()));
        assert(out.deep_view() =~= pairs_map(done));
    }
    while i < list.len()
        invariant
            i <= list.len(),
            done.len() == i,
            list.len() == entries.len(),
            timeline_wf(out),
            out.deep_view() == pairs_map(done),
            tree(*v) == Json::Object(entries),
            results == decoded_timed::<T>(entries),
            forall|k: int|
                0 <= k < list.len() ==> (#[trigger] list[k]).0@ == entries[k].0 && tree(
                    *list[k].1,
                ) == entries[k].1,
            forall|k: int|
                0 <= k < i ==> (#[trigger] results[k]) == Ok::<(u64, T::V), DecodeErrorView>(
                    done[k],
                ),
        decreases list.len() - i,
    {
        let at = match parse_u64(list[i].0.as_str()) {
            Some(at) => at,
            None => {
                let e = invalid(list[i].0.as_str());
                proof {
                    assert(results[i as int] == Err::<(u64, T::V), DecodeErrorView>(
                        e.deep_view(),
                    ));
                    lemma_collect_err(results, i as int);
                }
                return Err(e);
            },
        };
        match T::from_value(list[i].1) {
            Ok(record) => {
                let ghost before = out;
                let ghost content = record.deep_view();
                let ghost kept = record;
                out.insert(at, record);
                proof {
                    lemma_insert_deep_view(before, out, at, kept);
                    let more = done.push((at, content));
                    assert(more.drop_last() =~= done);
                    done = more;
                }
            },
            Err(e) => {
                proof {
                    assert(results[i as int] == Err::<(u64, T::V), DecodeErrorView>(
                        e.deep_view(),
                    ));
                    lemma_collect_err(results, i as int);
                }
                return Err(e);
            },
        }
        i += 1;
    }
    proof {
        lemma_collect_ok(results, done);
    }
    Ok(out)
}

/// An optional field that holds a table keyed by text.
pub open spec fn opt_table<T: Decode>(j: Json, key: Seq<char>) -> Result<
    Option<Seq<(Seq<char>, T::V)>>,
    DecodeErrorView,
> {
    match j.member(key) {
        None => Ok(None),
        Some(x) => match decoded_table::<T>(x) {
            Ok(table) => Ok(Some(table)),
            Err(e) => Err(e),
        },
    }
}

/// An optional field that holds a table keyed by a number written as text.
pub open spec fn opt_timeline<T: Decode>(j: Json, key: Seq<char>) -> Result<
    Option<Map<u64, T::V>>,
    DecodeErrorView,
> {
    match j.member(key) {
        None => Ok(None),
        Some(x) => match decoded_timeline::<T>(x) {
            Ok(table) => Ok(Some(table)),
            Err(e) => Err(e),
        },
    }
}

/// Reads an optional field that holds a table keyed by text.
pub fn optional_table<T: Decode>(v: &serde_json::Value, key: &str) -> (r: Result<
    Option<Vec<(String, T)>>,
    DecodeError,
>)
    ensures
        outcome(r) == opt_table::<T>(tree(*v), key@),
        r matches Ok(Some(table)) ==> table_wf(table),
{
    match optional_value(v, key) {
        None => Ok(None),
        Some(x) => match table_from_value::<T>(x) {
            Ok(table) => Ok(Some(table)),
            Err(e) => Err(e),
        },
    }
}

/// Reads an optional field that holds a table keyed by a number written as text.
pub fn optional_timeline<T: Decode>(v: &serde_json::Value, key: &str) -> (r: Result<
    Option<HashMap<u64, T>>,
    DecodeError,
>)
    ensures
        outcome(r) == opt_timeline::<T>(tree(*v), key@),
        r matches Ok(Some(table)) ==> timeline_wf(table),
{
    match optional_value(v, key) {
        None => Ok(None),
        Some(x) => match timeline_from_value::<T>(x) {
            Ok(table) => Ok(Some(table)),
            Err(e) => Err(e),
        },
    }
}

impl Decode for u64 {
    open spec fn decoded(j: Json) -> Result<u64, DecodeErrorView> {
        match j.as_u64() {
            Some(n) => Ok(n),
            None => Err(DecodeErrorView::UnexpectedShape("integer"@)),
        }
    }

    open spec fn wf(&self) -> bool {
        true
    }

    fn from_value(v: &serde_json::Value) -> (r: Result<u64, DecodeError>) {
        match value_as_u64(v) {
            Some(n) => Ok(n),
            None => Err(unexpected("integer")),
        }
    }
}

impl Decode for Real {
    open spec fn decoded(j: Json) -> Result<Real, DecodeErrorView> {
        match j.as_real() {
            Some(n) => Ok(n),
            None => Err(DecodeErrorView::UnexpectedShape("number"@)),
        }
    }

    open spec fn wf(&self) -> bool {
        true
    }

    fn from_value(v: &serde_json::Value) -> (r: Result<Real, DecodeError>) {
        match value_as_real(v) {
            Some(n) => Ok(n),
            None => Err(unexpected("number")),
        }
    }
}

impl Decode for String {
    open spec fn decoded(j: Json) -> Result<Seq<char>, DecodeErrorView> {
        match j.as_text() {
            Some(s) => Ok(s),
            None => Err(DecodeErrorView::UnexpectedShape("string"@)),
        }
    }

    open spec fn wf(&self) -> bool {
        true
    }

    fn from_value(v: &serde_json::Value) -> (r: Result<String, DecodeError>) {
        match value_as_str(v) {
            Some(s) => Ok(s.to_owned()),
            None => Err(unexpected("string")),
        }
    }
}

impl<T: Decode> Decode for Vec<T> {
    open spec fn decoded(j: Json) -> Result<Seq<T::V>, DecodeErrorView> {
        match j {
            Json::Array(items) => decoded_list::<T>(items),
            _ => Err(DecodeErrorView::UnexpectedShape("array"@)),
        }
    }

    open spec fn wf(&self) -> bool {
        all_wf(self@)
    }

    fn from_value(v: &serde_json::Value) -> (r: Result<Vec<T>, DecodeError>) {
        match value_as_array(v) {
            Some(items) => list_from_values::<T>(items),
            None => Err(unexpected("array")),
        }
    }
}

/// What a text decodes to: what the document that it denotes decodes to, or the parser's
/// refusal of the text.
pub open spec fn decoded_text<T: Decode>(text: Seq<char>) -> Result<T::V, DecodeErrorView> {
    match parsed(text) {
        Ok(j) => T::decoded(j),
        Err(message) => Err(DecodeErrorView::Syntax(message)),
    }
}

/// Reads a record from the text of a JSON document.
pub fn from_json<T: Decode>(text: &str) -> (r: Result<T, DecodeError>)
    ensures
        outcome(r) == decoded_text::<T>(text@),
        r matches Ok(record) ==> record.wf(),
{
    let v = parse(text)?;
    T::from_value(&v)
}

} // verus!
