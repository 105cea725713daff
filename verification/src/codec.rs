//! Between the store's JSON values, `serde_json`'s values and JSON text.
//!
//! Reading and writing JSON text is `serde_json`'s work. What is believed of
//! it here is stated on the items marked `external_body`; the conversions
//! between the two kinds of value are proved from that.

use crate::error::Error;
use crate::json::{items_model, lemma_items_model, members_model, Json, JsonView};
use vstd::prelude::*;

verus! {

/// `serde_json::Value`, a JSON value of the codec.
#[verifier::external_type_specification]
#[verifier::external_body]
pub struct ExValue(serde_json::Value);

/// `serde_json::Number`, a JSON number. The store carries numbers through
/// without looking inside.
#[verifier::external_type_specification]
#[verifier::external_body]
pub struct ExNumber(serde_json::Number);

/// `Clone::clone` of `serde_json::Number`: the copy is the same number.
pub assume_specification[ <serde_json::Number as Clone>::clone ](n: &serde_json::Number) -> (r:
    serde_json::Number)
    ensures
        r == *n,
;

/// `serde_json::Map`, the members of a JSON object of the codec.
#[verifier::external_type_specification]
#[verifier::external_body]
#[verifier::reject_recursive_types(K)]
#[verifier::reject_recursive_types(V)]
pub struct ExMembers<K, V>(serde_json::Map<K, V>);

/// What a `serde_json::Value` holds.
pub uninterp spec fn json_model(v: serde_json::Value) -> JsonView;

/// What a `serde_json::Map` holds: its members by key.
pub uninterp spec fn map_model(m: serde_json::Map<String, serde_json::Value>) -> Map<
    Seq<char>,
    JsonView,
>;

/// What `serde_json::from_str` reads from a text: the value, or `None` where
/// it rejects the text.
pub uninterp spec fn json_parse(text: Seq<char>) -> Option<JsonView>;

/// What `serde_json::to_string` writes for a value, or `None` where it fails.
pub uninterp spec fn json_text(v: JsonView) -> Option<Seq<char>>;

/// One level of a `serde_json::Value`, borrowed from it.
enum Shape<'a> {
    Null,
    Bool(bool),
    Number(&'a serde_json::Number),
    Text(&'a str),
    Array(&'a Vec<serde_json::Value>),
    Object(&'a serde_json::Map<String, serde_json::Value>),
}

/// One level of a `serde_json::Value`, ready to be made into one.
enum Parts {
    Null,
    Bool(bool),
    Number(serde_json::Number),
    Text(String),
    Array(Vec<serde_json::Value>),
    Object(serde_json::Map<String, serde_json::Value>),
}

/// The map of an object without members.
spec fn no_members() -> Map<Seq<char>, JsonView> {
    Map::empty()
}

/// What each of `items` holds.
spec fn values_model(items: Seq<serde_json::Value>) -> Seq<JsonView> {
    Seq::new(items.len(), |i: int| json_model(items[i]))
}

/// The members that `entries` list, as a map; a later entry replaces an
/// earlier one with the same key.
spec fn entries_model(entries: Seq<(&String, &serde_json::Value)>) -> Map<
    Seq<char>,
    JsonView,
>
    decreases entries.len(),
{
    if entries.len() == 0 {
        Map::empty()
    } else {
        entries_model(entries.drop_last()).insert(
            entries.last().0@,
            json_model(*entries.last().1),
        )
    }
}

impl<'a> Shape<'a> {
    spec fn model(self) -> JsonView {
        match self {
            Shape::Null => JsonView::Null,
            Shape::Bool(b) => JsonView::Bool(b),
            Shape::Number(n) => JsonView::Number(*n),
            Shape::Text(s) => JsonView::Text(s@),
            Shape::Array(items) => JsonView::Array(values_model(items@)),
            Shape::Object(m) => JsonView::Object(map_model(*m)),
        }
    }
}

impl Parts {
    spec fn model(self) -> JsonView {
        match self {
            Parts::Null => JsonView::Null,
            Parts::Bool(b) => JsonView::Bool(b),
            Parts::Number(n) => JsonView::Number(n),
            Parts::Text(s) => JsonView::Text(s@),
            Parts::Array(items) => JsonView::Array(values_model(items@)),
            Parts::Object(m) => JsonView::Object(map_model(m)),
        }
    }
}

/// The variants of `serde_json::Value`, told apart: each variant hands out the
/// field it holds.
#[verifier::external_body]
fn peel<'a>(v: &'a serde_json::Value) -> (shape: Shape<'a>)
    ensures
        shape.model() == json_model(*v),
{
    match v {
        serde_json::Value::Null => Shape::Null,
        serde_json::Value::Bool(b) => Shape::Bool(*b),
        serde_json::Value::Number(n) => Shape::Number(n),
        serde_json::Value::String(s) => Shape::Text(s),
        serde_json::Value::Array(a) => Shape::Array(a),
        serde_json::Value::Object(m) => Shape::Object(m),
    }
}

/// The variants of `serde_json::Value`, built: each variant takes the field it
/// holds.
#[verifier::external_body]
fn wrap(parts: Parts) -> (v: serde_json::Value)
    ensures
        json_model(v) == parts.model(),
{
    match parts {
        Parts::Null => serde_json::Value::Null,
        Parts::Bool(b) => serde_json::Value::Bool(b),
        Parts::Number(n) => serde_json::Value::Number(n),
        Parts::Text(s) => serde_json::Value::String(s),
        Parts::Array(a) => serde_json::Value::Array(a),
        Parts::Object(m) => serde_json::Value::Object(m),
    }
}

/// `serde_json::Map::new`: a map without members.
#[verifier::external_body]
fn members_new() -> (m: serde_json::Map<String, serde_json::Value>)
    ensures
        map_model(m) == no_members(),
{
    serde_json::Map::new()
}

/// `serde_json::Map::insert`: afterwards the map holds `value` under `key`,
/// in place of what it held there before, and its other members as they were.
#[verifier::external_body]
fn members_insert(m: &mut serde_json::Map<String, serde_json::Value>, key: String, value: serde_json::Value)
    ensures
        map_model(*final(m)) == map_model(*old(m)).insert(key@, json_model(value)),
{
    m.insert(key, value);
}

/// `serde_json::Map::iter`, collected: every member of the map once, as key
/// and value. Listed one after the other they make up the map again, and
/// each is in it.
#[verifier::external_body]
fn members_entries<'a>(m: &'a serde_json::Map<String, serde_json::Value>) -> (entries: Vec<
    (&'a String, &'a serde_json::Value),
>)
    ensures
        entries_model(entries@) == map_model(*m),
        forall|i: int|
            0 <= i < entries@.len() ==> map_model(*m).contains_key((#[trigger] entries@[i]).0@)
                && map_model(*m)[entries@[i].0@] == json_model(*entries@[i].1),
{
    m.iter().collect()
}

/// `serde_json::from_str` at `serde_json::Value`: the value it reads from
/// `text`, or what it says against the text.
#[verifier::external_body]
fn read_value(text: &str) -> (r: Result<serde_json::Value, String>)
    ensures
        match r {
            Ok(v) => json_parse(text@) == Some(json_model(v)),
            Err(_) => json_parse(text@) is None,
        },
{
    serde_json::from_str::<serde_json::Value>(text).map_err(|e| e.to_string())
}

/// `serde_json::to_string` of a `serde_json::Value`: the text it writes, or
/// what it says on failing.
#[verifier::external_body]
fn write_value(v: &serde_json::Value) -> (r: Result<String, String>)
    ensures
        match r {
            Ok(text) => json_text(json_model(*v)) == Some(text@),
            Err(_) => json_text(json_model(*v)) is None,
        },
{
    serde_json::to_string(v).map_err(|e| e.to_string())
}

/// Members listed from a sequence are finitely many.
proof fn lemma_entries_finite(entries: Seq<(&String, &serde_json::Value)>)
    ensures
        entries_model(entries).dom().finite(),
    decreases entries.len(),
{
    if entries.len() > 0 {
        lemma_entries_finite(entries.drop_last());
    }
}

impl Json {
    /// The same value, taken over from `serde_json`.
    pub fn from_value(outside: &serde_json::Value) -> (v: Json)
        ensures
            v@ == json_model(*outside),
        decreases json_model(*outside),
    {
        match peel(outside) {
            Shape::Null => Json::Null,
            Shape::Bool(b) => Json::Bool(b),
            Shape::Number(n) => Json::Number(n.clone()),
            Shape::Text(s) => Json::Text(s.to_owned()),
            Shape::Array(items) => {
                let mut out: Vec<Json> = Vec::new();
                let mut i: usize = 0;
                while i < items.len()
                    invariant
                        i <= items.len(),
                        json_model(*outside) == JsonView::Array(values_model(items@)),
                        out@.len() == i,
                        forall|j: int| 0 <= j < i ==> (#[trigger] out@[j]).model() == json_model(items@[j]),
                    decreases items.len() - i,
                {
                    proof {
                        let whole = json_model(*outside);
                        assert(values_model(items@)[i as int] == json_model(items@[i as int]));
                        assert(decreases_to!(whole => whole->Array_0));
                        assert(decreases_to!(whole->Array_0 => whole->Array_0[i as int]));
                    }
                    let item = Json::from_value(&items[i]);
                    out.push(item);
                    i = i + 1;
                }
                proof {
                    lemma_items_model(out@);
                    assert(items_model(out@) =~= values_model(items@));
                }
                Json::Array(out)
            },
            Shape::Object(m) => {
                let entries = members_entries(m);
                let mut out: Vec<(String, Json)> = Vec::new();
                let mut i: usize = 0;
                proof {
                    lemma_entries_finite(entries@);
                    assert(entries@.take(0) =~= Seq::empty());
                }
                while i < entries.len()
                    invariant
                        i <= entries.len(),
                        json_model(*outside) == JsonView::Object(map_model(*m)),
                        map_model(*m).dom().finite(),
                        forall|j: int|
                            0 <= j < entries@.len() ==> map_model(*m).contains_key(
                                (#[trigger] entries@[j]).0@,
                            ) && map_model(*m)[entries@[j].0@] == json_model(*entries@[j].1),
                        members_model(out@) == entries_model(entries@.take(i as int)),
                    decreases entries.len() - i,
                {
                    let ghost before = out@;
                    proof {
                        let whole = json_model(*outside);
                        vstd::map::axiom_map_index_decreases_finite(
                            whole->Object_0,
                            entries@[i as int].0@,
                        );
                        assert(decreases_to!(whole => whole->Object_0));
                        assert(decreases_to!(whole->Object_0 => whole->Object_0[entries@[i as int].0@]));
                    }
                    let key = entries[i].0.clone();
                    let member = Json::from_value(entries[i].1);
                    out.push((key, member));
                    proof {
                        assert(out@.drop_last() =~= before);
                        assert(entries@.take(i + 1).drop_last() =~= entries@.take(i as int));
                    }
                    i = i + 1;
                }
                proof {
                    assert(entries@.take(i as int) =~= entries@);
                }
                Json::Object(out)
            },
        }
    }

    /// The same value, handed to `serde_json`.
    pub fn to_value(&self) -> (outside: serde_json::Value)
        ensures
            json_model(outside) == self@,
        decreases self,
    {
        match self {
            Json::Null => wrap(Parts::Null),
            Json::Bool(b) => wrap(Parts::Bool(*b)),
            Json::Number(n) => wrap(Parts::Number(n.clone())),
            Json::Text(s) => wrap(Parts::Text(s.clone())),
            Json::Array(items) => {
                let mut out: Vec<serde_json::Value> = Vec::new();
                let mut i: usize = 0;
                while i < items.len()
                    invariant
                        i <= items.len(),
                        *self == Json::Array(*items),
                        out@.len() == i,
                        forall|j: int| 0 <= j < i ==> json_model(#[trigger] out@[j]) == items@[j].model(),
                    decreases items.len() - i,
                {
                    proof {
                        assert(decreases_to!(*self => self->Array_0));
                        assert(decreases_to!(*items => items[i as int]));
                    }
                    let item = items[i].to_value();
                    out.push(item);
                    i = i + 1;
                }
                proof {
                    lemma_items_model(items@);
                    assert(values_model(out@) =~= items_model(items@));
                }
                wrap(Parts::Array(out))
            },
            Json::Object(entries) => {
                let mut m = members_new();
                let mut i: usize = 0;
                proof {
                    assert(entries@.take(0) =~= Seq::empty());
                }
                while i < entries.len()
                    invariant
                        i <= entries.len(),
                        *self == Json::Object(*entries),
                        map_model(m) == members_model(entries@.take(i as int)),
                    decreases entries.len() - i,
                {
                    proof {
                        assert(decreases_to!(*self => self->Object_0));
                        assert(decreases_to!(*entries => entries[i as int]));
                        assert(decreases_to!(entries[i as int] => entries[i as int].1));
                    }
                    let key = entries[i].0.clone();
                    let member = entries[i].1.to_value();
                    members_insert(&mut m, key, member);
                    proof {
                        assert(entries@.take(i + 1).drop_last() =~= entries@.take(i as int));
                    }
                    i = i + 1;
                }
                proof {
                    assert(entries@.take(i as int) =~= entries@);
                }
                wrap(Parts::Object(m))
            },
        }
    }

    /// The value that `text` is the JSON text of, or `Error::Json` where it
    /// is the text of none.
    pub fn parse(text: &str) -> (r: Result<Json, Error>)
        ensures
            match r {
                Ok(v) => json_parse(text@) == Some(v@),
                Err(e) => e is Json && json_parse(text@) is None,
            },
    {
        match read_value(text) {
            Ok(outside) => Ok(Json::from_value(&outside)),
            Err(said) => Err(Error::Json(said)),
        }
    }

    /// This value as JSON text, or `Error::Json` where it cannot be written.
    pub fn to_text(&self) -> (r: Result<String, Error>)
        ensures
            match r {
                Ok(text) => json_text(self@) == Some(text@),
                Err(e) => e is Json && json_text(self@) is None,
            },
    {
        let outside = self.to_value();
        match write_value(&outside) {
            Ok(text) => Ok(text),
            Err(said) => Err(Error::Json(said)),
        }
    }
}

} // verus!
