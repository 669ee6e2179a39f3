//! JSON values as trees of plain data, read from text and written to text.

use crate::text::same;
use vstd::prelude::*;

verus! {

/// The mathematical content of a JSON value. The entries of an object are in
/// the order of the text.
pub enum JsonModel {
    Null,
    Bool(bool),
    Int(int),
    Real(Seq<char>),
    Text(Seq<char>),
    Array(Seq<JsonModel>),
    Object(Seq<(Seq<char>, JsonModel)>),
}

/// A JSON value. A number that is an integer of 64 bits is `Unsigned` or,
/// below zero, `Signed`; any other number is `Real` and holds its text.
#[derive(Debug, PartialEq, Eq)]
pub enum Json {
    Null,
    Bool(bool),
    Unsigned(u64),
    Signed(i64),
    Real(String),
    Text(String),
    Array(Vec<Json>),
    Object(Vec<(String, Json)>),
}

impl Json {
    /// The tree that a value holds.
    pub open spec fn model(self) -> JsonModel
        decreases self,
    {
        match self {
            Json::Null => JsonModel::Null,
            Json::Bool(b) => JsonModel::Bool(b),
            Json::Unsigned(n) => JsonModel::Int(n as int),
            Json::Signed(n) => JsonModel::Int(n as int),
            Json::Real(t) => JsonModel::Real(t@),
            Json::Text(t) => JsonModel::Text(t@),
            Json::Array(items) => JsonModel::Array(item_models(items@)),
            Json::Object(entries) => JsonModel::Object(entry_models(entries@)),
        }
    }
}

impl View for Json {
    type V = JsonModel;

    open spec fn view(&self) -> JsonModel {
        self.model()
    }
}

/// The trees of the items of an array, in order.
pub open spec fn item_models(items: Seq<Json>) -> Seq<JsonModel>
    decreases items,
{
    if items.len() == 0 {
        Seq::empty()
    } else {
        item_models(items.drop_last()).push(items.last().model())
    }
}

/// The names and trees of the entries of an object, in order.
pub open spec fn entry_models(entries: Seq<(String, Json)>) -> Seq<(Seq<char>, JsonModel)>
    decreases entries,
{
    if entries.len() == 0 {
        Seq::empty()
    } else {
        entry_models(entries.drop_last()).push((entries.last().0@, entries.last().1.model()))
    }
}

/// The trees of the items are as many as the items, each the tree of its
/// item.
pub proof fn lemma_item_models(items: Seq<Json>)
    ensures
        item_models(items).len() == items.len(),
        forall|i: int| 0 <= i < items.len() ==> (#[trigger] item_models(items)[i]) == items[i]@,
    decreases items.len(),
{
    if items.len() > 0 {
        lemma_item_models(items.drop_last());
    }
}

/// The entries of the tree are as many as the entries, each the name and the
/// tree of its entry.
pub proof fn lemma_entry_models(entries: Seq<(String, Json)>)
    ensures
        entry_models(entries).len() == entries.len(),
        forall|i: int|
            0 <= i < entries.len() ==> (#[trigger] entry_models(entries)[i]) == (
                entries[i].0@,
                entries[i].1@,
            ),
    decreases entries.len(),
{
    if entries.len() > 0 {
        lemma_entry_models(entries.drop_last());
    }
}

/// The value of the last entry named `key`, if there is one.
pub open spec fn lookup(entries: Seq<(Seq<char>, JsonModel)>, key: Seq<char>) -> Option<JsonModel>
    decreases entries.len(),
{
    if entries.len() == 0 {
        None
    } else if entries.last().0 == key {
        Some(entries.last().1)
    } else {
        lookup(entries.drop_last(), key)
    }
}

/// No two entries have the same name.
pub open spec fn distinct_names(entries: Seq<(Seq<char>, JsonModel)>) -> bool {
    forall|i: int, j: int| 0 <= i < j < entries.len() ==> entries[i].0 != entries[j].0
}

impl JsonModel {
    /// The member `key` of an object.
    pub open spec fn member(self, key: Seq<char>) -> Option<JsonModel> {
        match self {
            JsonModel::Object(entries) => lookup(entries, key),
            _ => None,
        }
    }

    /// The number, where the value is an integer that fits in 64 bits
    /// without sign.
    pub open spec fn as_u64(self) -> Option<u64> {
        match self {
            JsonModel::Int(n) => if 0 <= n <= u64::MAX {
                Some(n as u64)
            } else {
                None
            },
            _ => None,
        }
    }

    /// The number, where the value is an integer that fits in 64 bits with
    /// sign.
    pub open spec fn as_i64(self) -> Option<i64> {
        match self {
            JsonModel::Int(n) => if i64::MIN <= n <= i64::MAX {
                Some(n as i64)
            } else {
                None
            },
            _ => None,
        }
    }

    /// The characters, where the value is a string.
    pub open spec fn as_text(self) -> Option<Seq<char>> {
        match self {
            JsonModel::Text(t) => Some(t),
            _ => None,
        }
    }

    /// The items, where the value is an array.
    pub open spec fn as_array(self) -> Option<Seq<JsonModel>> {
        match self {
            JsonModel::Array(items) => Some(items),
            _ => None,
        }
    }

    /// A tree that text can hold as it is: no number but integers, and no
    /// object with a name twice.
    pub open spec fn plain(self) -> bool
        decreases self,
    {
        match self {
            JsonModel::Real(_) => false,
            JsonModel::Array(items) => forall|i: int|
                0 <= i < items.len() ==> (#[trigger] items[i]).plain(),
            JsonModel::Object(entries) => distinct_names(entries) && forall|i: int|
                0 <= i < entries.len() ==> (#[trigger] entries[i]).1.plain(),
            _ => true,
        }
    }
}

/// `serde_json::Value`: a JSON value as the reader and the writer of JSON
/// text hold it.
#[verifier::external_type_specification]
#[verifier::external_body]
pub struct ExValue(serde_json::Value);

/// The tree that a JSON text holds, where it is one.
pub uninterp spec fn parsed(text: Seq<char>) -> Option<JsonModel>;

/// The compact JSON text of a tree.
pub uninterp spec fn printed(tree: JsonModel) -> Seq<char>;

/// The tree that a `serde_json::Value` holds.
pub uninterp spec fn content(value: serde_json::Value) -> JsonModel;

/// Calls `serde_json::from_str` for a `serde_json::Value` and turns its
/// error into the error's message. The contract names the tree of the
/// value, and claims that the call fails exactly on a text that holds none;
/// of the message it claims nothing.
#[verifier::external_body]
pub(crate) fn parse_value(text: &str) -> (value: Result<serde_json::Value, String>)
    ensures
        match value {
            Ok(v) => parsed(text@) == Some(content(v)),
            Err(_) => parsed(text@) is None,
        },
{
    serde_json::from_str::<serde_json::Value>(text).map_err(|e| e.to_string())
}

/// Takes a `serde_json::Value` apart, one variant after the other, a number
/// by `as_u64`, `as_i64` and `to_string` of `serde_json::Number`, the entries
/// of an object in the order in which `serde_json::Map` hands them out. The
/// contract claims that the tree built is the one that the value holds.
#[verifier::external_body]
pub(crate) fn tree_of(value: serde_json::Value) -> (tree: Json)
    ensures
        tree@ == content(value),
{
    match value {
        serde_json::Value::Null => Json::Null,
        serde_json::Value::Bool(b) => Json::Bool(b),
        serde_json::Value::Number(n) => match (n.as_u64(), n.as_i64()) {
            (Some(u), _) => Json::Unsigned(u),
            (None, Some(i)) => Json::Signed(i),
            (None, None) => Json::Real(n.to_string()),
        },
        serde_json::Value::String(s) => Json::Text(s),
        serde_json::Value::Array(a) => Json::Array(a.into_iter().map(tree_of).collect()),
        serde_json::Value::Object(m) => Json::Object(
            m.into_iter().map(|(k, v)| (k, tree_of(v))).collect(),
        ),
    }
}

/// Builds a `serde_json::Value` from a tree, one variant after the other, a
/// `Real` by `serde_json::from_str` on its text. The contract claims that a
/// plain tree is held by the value as it is, entry after entry:
/// `serde_json` is built with `preserve_order`, so its `Map` keeps the
/// entries in the order in which they were put in.
#[verifier::external_body]
pub(crate) fn value_of(tree: &Json) -> (value: serde_json::Value)
    ensures
        tree@.plain() ==> content(value) == tree@,
{
    match tree {
        Json::Null => serde_json::Value::Null,
        Json::Bool(b) => serde_json::Value::Bool(*b),
        Json::Unsigned(n) => serde_json::Value::from(*n),
        Json::Signed(n) => serde_json::Value::from(*n),
        Json::Real(t) => serde_json::from_str(t).unwrap_or(serde_json::Value::Null),
        Json::Text(t) => serde_json::Value::String(t.clone()),
        Json::Array(a) => serde_json::Value::Array(a.iter().map(value_of).collect()),
        Json::Object(m) => serde_json::Value::Object(
            m.iter().map(|(k, v)| (k.clone(), value_of(v))).collect(),
        ),
    }
}

/// Calls `to_string` of `serde_json::Value`, which writes compact JSON. The
/// contract names the text.
#[verifier::external_body]
pub(crate) fn print_value(value: &serde_json::Value) -> (text: String)
    ensures
        text@ == printed(content(*value)),
{
    value.to_string()
}

/// Reads a JSON text. The error is the message of the reader.
pub fn parse(text: &str) -> (tree: Result<Json, String>)
    ensures
        match tree {
            Ok(t) => parsed(text@) == Some(t@),
            Err(_) => parsed(text@) is None,
        },
{
    match parse_value(text) {
        Ok(value) => Ok(tree_of(value)),
        Err(e) => Err(e),
    }
}

/// Writes a tree as compact JSON text.
pub fn print(tree: &Json) -> (text: String)
    ensures
        tree@.plain() ==> text@ == printed(tree@),
{
    let value = value_of(tree);
    print_value(&value)
}

impl Json {
    /// The member `key` of an object; `None` for anything else.
    pub fn get(&self, key: &str) -> (found: Option<&Json>)
        ensures
            match found {
                Some(j) => self@.member(key@) == Some(j@),
                None => self@.member(key@) is None,
            },
    {
        match self {
            Json::Object(entries) => {
                let ghost all = self@->Object_0;
                let mut i: usize = entries.len();
                proof {
                    lemma_entry_models(entries@);
                    assert(all.take(i as int) =~= all);
                }
                while i > 0
                    invariant
                        i <= entries.len(),
                        self@ == JsonModel::Object(all),
                        all.len() == entries@.len(),
                        forall|k: int|
                            0 <= k < all.len() ==> all[k] == (entries@[k].0@, entries@[k].1@),
                        lookup(all, key@) == lookup(all.take(i as int), key@),
                    decreases i,
                {
                    i = i - 1;
                    proof {
                        let prefix = all.take(i + 1);
                        assert(prefix.last() == all[i as int]);
                        assert(prefix.drop_last() =~= all.take(i as int));
                    }
                    if same(entries[i].0.as_str(), key) {
                        assert(lookup(all.take(i + 1), key@) == Some(entries@[i as int].1@));
                        return Some(&entries[i].1);
                    }
                }
                None
            },
            _ => None,
        }
    }

    /// The number, where the value is an integer that fits in 64 bits
    /// without sign.
    pub fn as_u64(&self) -> (n: Option<u64>)
        ensures
            n == self@.as_u64(),
    {
        match self {
            Json::Unsigned(n) => Some(*n),
            Json::Signed(n) => if *n >= 0 {
                Some(*n as u64)
            } else {
                None
            },
            _ => None,
        }
    }

    /// The number, where the value is an integer that fits in 64 bits with
    /// sign.
    pub fn as_i64(&self) -> (n: Option<i64>)
        ensures
            n == self@.as_i64(),
    {
        match self {
            Json::Unsigned(n) => if *n <= 0x7fff_ffff_ffff_ffff {
                Some(*n as i64)
            } else {
                None
            },
            Json::Signed(n) => Some(*n),
            _ => None,
        }
    }

    /// The characters, where the value is a string.
    pub fn as_str(&self) -> (text: Option<&str>)
        ensures
            match text {
                Some(t) => self@.as_text() == Some(t@),
                None => self@.as_text() is None,
            },
    {
        match self {
            Json::Text(t) => Some(t.as_str()),
            _ => None,
        }
    }

    /// The items, where the value is an array.
    pub fn as_array(&self) -> (items: Option<&Vec<Json>>)
        ensures
            match items {
                Some(list) => self@.as_array() == Some(item_models(list@)),
                None => self@.as_array() is None,
            },
    {
        match self {
            Json::Array(items) => Some(items),
            _ => None,
        }
    }
}

} // verus!
