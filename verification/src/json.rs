//! JSON values as the store reads them.

use crate::text::same_text;
use vstd::prelude::*;

verus! {

/// A JSON value: the content of a document.
#[derive(Debug, PartialEq)]
pub enum Json {
    Null,
    Bool(bool),
    Number(serde_json::Number),
    Text(String),
    Array(Vec<Json>),
    /// The members in the order they were written. Where a key occurs more
    /// than once, the last occurrence counts.
    Object(Vec<(String, Json)>),
}

/// A JSON value as mathematics: strings are sequences of characters, arrays
/// are sequences and objects are maps from key to member.
pub enum JsonView {
    Null,
    Bool(bool),
    Number(serde_json::Number),
    Text(Seq<char>),
    Array(Seq<JsonView>),
    Object(Map<Seq<char>, JsonView>),
}

/// The elements of an array, each as mathematics.
pub open spec fn items_model(items: Seq<Json>) -> Seq<JsonView>
    decreases items,
{
    if items.len() == 0 {
        Seq::empty()
    } else {
        items_model(items.drop_last()).push(items.last().model())
    }
}

/// The members of an object as a map; a later member replaces an earlier one
/// with the same key.
pub open spec fn members_model(entries: Seq<(String, Json)>) -> Map<Seq<char>, JsonView>
    decreases entries,
{
    if entries.len() == 0 {
        Map::empty()
    } else {
        members_model(entries.drop_last()).insert(entries.last().0@, entries.last().1.model())
    }
}

impl Json {
    /// This value as mathematics.
    pub open spec fn model(self) -> JsonView
        decreases self,
    {
        match self {
            Json::Null => JsonView::Null,
            Json::Bool(b) => JsonView::Bool(b),
            Json::Number(n) => JsonView::Number(n),
            Json::Text(s) => JsonView::Text(s@),
            Json::Array(items) => JsonView::Array(items_model(items@)),
            Json::Object(entries) => JsonView::Object(members_model(entries@)),
        }
    }
}

impl JsonView {
    /// The member under `key`, where this is an object that has one.
    pub open spec fn member(self, key: Seq<char>) -> Option<JsonView> {
        match self {
            JsonView::Object(members) => if members.contains_key(key) {
                Some(members[key])
            } else {
                None
            },
            _ => None,
        }
    }

    /// The characters, where this is a string.
    pub open spec fn as_text(self) -> Option<Seq<char>> {
        match self {
            JsonView::Text(s) => Some(s),
            _ => None,
        }
    }

    /// The elements, where this is an array.
    pub open spec fn as_array(self) -> Option<Seq<JsonView>> {
        match self {
            JsonView::Array(items) => Some(items),
            _ => None,
        }
    }
}

/// The strings among `items`, in their order; what is not a string is left
/// out.
pub open spec fn texts_in(items: Seq<JsonView>) -> Seq<Seq<char>>
    decreases items.len(),
{
    if items.len() == 0 {
        Seq::empty()
    } else {
        match items.last() {
            JsonView::Text(s) => texts_in(items.drop_last()).push(s),
            _ => texts_in(items.drop_last()),
        }
    }
}

/// A string is among `texts_in(items)` exactly if it is an element of `items`:
/// filtering by a tag or a link is membership in the array.
pub proof fn law_texts_are_the_strings(items: Seq<JsonView>, s: Seq<char>)
    ensures
        texts_in(items).contains(s) <==> items.contains(JsonView::Text(s)),
    decreases items.len(),
{
    if items.len() > 0 {
        let init = items.drop_last();
        law_texts_are_the_strings(init, s);
        if items.contains(JsonView::Text(s)) {
            let i = choose|i: int| 0 <= i < items.len() && items[i] == JsonView::Text(s);
            if i < items.len() - 1 {
                assert(init[i] == JsonView::Text(s));
                let j = choose|j: int| 0 <= j < texts_in(init).len() && texts_in(init)[j] == s;
                assert(texts_in(items)[j] == s);
            } else {
                assert(texts_in(items).last() == s);
            }
        }
        if texts_in(items).contains(s) {
            let j = choose|j: int| 0 <= j < texts_in(items).len() && texts_in(items)[j] == s;
            if items.last() == JsonView::Text(s) {
                assert(items[items.len() - 1] == JsonView::Text(s));
            } else {
                assert(texts_in(init)[j] == s);
                let i = choose|i: int| 0 <= i < init.len() && init[i] == JsonView::Text(s);
                assert(items[i] == JsonView::Text(s));
            }
        }
    }
}

/// The characters of an optional string slice.
pub open spec fn slice_text(s: Option<&str>) -> Option<Seq<char>> {
    match s {
        Some(t) => Some(t@),
        None => None,
    }
}

/// The characters of each of the string slices in `s`.
pub open spec fn slice_texts(s: Seq<&str>) -> Seq<Seq<char>> {
    Seq::new(s.len(), |i: int| s[i]@)
}

/// `items_model` keeps the length and models element by element.
pub proof fn lemma_items_model(items: Seq<Json>)
    ensures
        items_model(items).len() == items.len(),
        forall|i: int| 0 <= i < items.len() ==> #[trigger] items_model(items)[i] == items[i].model(),
    decreases items.len(),
{
    if items.len() > 0 {
        lemma_items_model(items.drop_last());
    }
}

/// The member that counts for `key` is the last one written under it.
pub proof fn lemma_member_last(entries: Seq<(String, Json)>, key: Seq<char>, i: int)
    requires
        0 <= i < entries.len(),
        entries[i].0@ == key,
        forall|j: int| i < j < entries.len() ==> (#[trigger] entries[j]).0@ != key,
    ensures
        members_model(entries).contains_key(key),
        members_model(entries)[key] == entries[i].1.model(),
    decreases entries.len(),
{
    if i < entries.len() - 1 {
        lemma_member_last(entries.drop_last(), key, i);
    }
}

/// A key that no member is written under is not in the map.
pub proof fn lemma_member_absent(entries: Seq<(String, Json)>, key: Seq<char>)
    requires
        forall|j: int| 0 <= j < entries.len() ==> (#[trigger] entries[j]).0@ != key,
    ensures
        !members_model(entries).contains_key(key),
    decreases entries.len(),
{
    if entries.len() > 0 {
        lemma_member_absent(entries.drop_last(), key);
    }
}

impl Json {
    /// The member under `key`: `None` where this is no object or has no such
    /// member.
    pub fn get(&self, key: &str) -> (r: Option<&Json>)
        ensures
            match r {
                Some(v) => self@.member(key@) == Some(v@),
                None => self@.member(key@) is None,
            },
    {
        match self {
            Json::Object(entries) => {
                let mut i: usize = entries.len();
                while i > 0
                    invariant
                        i <= entries.len(),
                        *self == Json::Object(*entries),
                        forall|j: int| i <= j < entries.len() ==> (#[trigger] entries@[j]).0@ != key@,
                    decreases i,
                {
                    i = i - 1;
                    if same_text(entries[i].0.as_str(), key) {
                        proof {
                            lemma_member_last(entries@, key@, i as int);
                        }
                        return Some(&entries[i].1);
                    }
                }
                proof {
                    lemma_member_absent(entries@, key@);
                }
                None
            },
            _ => None,
        }
    }

    /// The string, where this is one.
    pub fn as_str(&self) -> (r: Option<&str>)
        ensures
            slice_text(r) == self@.as_text(),
    {
        match self {
            Json::Text(s) => Some(s.as_str()),
            _ => None,
        }
    }

    /// The elements, where this is an array.
    pub fn as_array(&self) -> (r: Option<&Vec<Json>>)
        ensures
            match r {
                Some(items) => *self == Json::Array(*items) && self@.as_array() == Some(
                    items_model(items@),
                ),
                None => self@.as_array() is None,
            },
    {
        match self {
            Json::Array(items) => Some(items),
            _ => None,
        }
    }

    /// The strings among the elements of `items`, in their order. An element
    /// that is not a string is skipped.
    pub fn strings(items: &Vec<Json>) -> (r: Vec<&str>)
        ensures
            slice_texts(r@) == texts_in(items_model(items@)),
    {
        let mut out: Vec<&str> = Vec::new();
        let mut i: usize = 0;
        proof {
            lemma_items_model(items@);
            assert(items_model(items@).take(0) =~= Seq::empty());
        }
        while i < items.len()
            invariant
                i <= items.len(),
                items_model(items@).len() == items.len(),
                slice_texts(out@) == texts_in(items_model(items@).take(i as int)),
            decreases items.len() - i,
        {
            let ghost before = items_model(items@).take(i as int);
            let ghost after = items_model(items@).take(i + 1);
            proof {
                lemma_items_model(items@);
                assert(after.drop_last() =~= before);
                assert(after.last() == items@[i as int].model());
            }
            match &items[i] {
                Json::Text(s) => {
                    let ghost old_out = out@;
                    out.push(s.as_str());
                    proof {
                        assert(slice_texts(out@) =~= slice_texts(old_out).push(s@));
                    }
                },
                _ => {},
            }
            i = i + 1;
        }
        proof {
            assert(items_model(items@).take(i as int) =~= items_model(items@));
        }
        out
    }
}

impl Clone for Json {
    /// A copy that holds the same value.
    fn clone(&self) -> (copy: Json)
        ensures
            copy@ == self@,
        decreases self,
    {
        match self {
            Json::Null => Json::Null,
            Json::Bool(b) => Json::Bool(*b),
            Json::Number(n) => Json::Number(n.clone()),
            Json::Text(s) => Json::Text(s.clone()),
            Json::Array(items) => {
                let mut out: Vec<Json> = Vec::new();
                let mut i: usize = 0;
                while i < items.len()
                    invariant
                        i <= items.len(),
                        *self == Json::Array(*items),
                        out@.len() == i,
                        forall|j: int| 0 <= j < i ==> (#[trigger] out@[j]).model() == items@[j].model(),
                    decreases items.len() - i,
                {
                    proof {
                        assert(decreases_to!(*self => self->Array_0));
                        assert(decreases_to!(*items => items[i as int]));
                    }
                    let item = items[i].clone();
                    out.push(item);
                    i = i + 1;
                }
                proof {
                    lemma_items_model(items@);
                    lemma_items_model(out@);
                    assert(items_model(out@) =~= items_model(items@));
                }
                Json::Array(out)
            },
            Json::Object(entries) => {
                let mut out: Vec<(String, Json)> = Vec::new();
                let mut i: usize = 0;
                proof {
                    assert(entries@.take(0) =~= out@);
                }
                while i < entries.len()
                    invariant
                        i <= entries.len(),
                        *self == Json::Object(*entries),
                        members_model(out@) == members_model(entries@.take(i as int)),
                    decreases entries.len() - i,
                {
                    proof {
                        assert(decreases_to!(*self => self->Object_0));
                        assert(decreases_to!(*entries => entries[i as int]));
                        assert(decreases_to!(entries[i as int] => entries[i as int].1));
                    }
                    let ghost before = out@;
                    let key = entries[i].0.clone();
                    let member = entries[i].1.clone();
                    out.push((key, member));
                    proof {
                        assert(out@.drop_last() =~= before);
                        assert(entries@.take(i + 1).drop_last() =~= entries@.take(i as int));
                    }
                    i = i + 1;
                }
                proof {
                    assert(entries@.take(i as int) =~= entries@);
                }
                Json::Object(out)
            },
        }
    }
}

impl View for Json {
    type V = JsonView;

    open spec fn view(&self) -> JsonView {
        self.model()
    }
}

} // verus!
