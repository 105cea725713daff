//! Documents: an identifier and a JSON value.

use crate::json::{slice_text, slice_texts, texts_in, Json, JsonView};
use vstd::prelude::*;

verus! {

/// One stored entity. Type, tags, parent and links are members of `data`,
/// read by their conventional names; a document that lacks one, or holds
/// something else under its name, answers none or empty.
#[derive(Debug, Clone, PartialEq)]
pub struct Object {
    pub id: String,
    pub data: Json,
}

/// A document as mathematics.
pub struct ObjectView {
    pub id: Seq<char>,
    pub data: JsonView,
}

/// One decimal digit or one of `a` to `f`.
pub open spec fn is_lower_hex(c: char) -> bool {
    ('0' <= c && c <= '9') || ('a' <= c && c <= 'f')
}

/// The shape of a generated identifier: 36 characters, hyphens after the
/// 8th, 12th, 16th and 20th digit, lower-case hexadecimal digits elsewhere,
/// with the version digit 4 and one of the variant digits 8, 9, a, b.
pub open spec fn is_random_id(s: Seq<char>) -> bool {
    &&& s.len() == 36
    &&& forall|i: int|
        0 <= i < 36 ==> if i == 8 || i == 13 || i == 18 || i == 23 {
            #[trigger] s[i] == '-'
        } else {
            is_lower_hex(s[i])
        }
    &&& s[14] == '4'
    &&& (s[19] == '8' || s[19] == '9' || s[19] == 'a' || s[19] == 'b')
}

/// `uuid::Uuid::new_v4`, written out by `to_string`. The identifier is random,
/// so only its shape is claimed: the hyphenated lower-case form of a version 4
/// UUID.
#[verifier::external_body]
fn random_id() -> (id: String)
    ensures
        is_random_id(id@),
{
    uuid::Uuid::new_v4().to_string()
}

impl ObjectView {
    /// The string under `name` in the document's data, if there is one.
    pub open spec fn text_member(self, name: Seq<char>) -> Option<Seq<char>> {
        match self.data.member(name) {
            Some(v) => v.as_text(),
            None => None,
        }
    }

    /// The strings of the array under `name` in the document's data; empty
    /// where there is no such array.
    pub open spec fn text_list(self, name: Seq<char>) -> Seq<Seq<char>> {
        match self.data.member(name) {
            Some(JsonView::Array(items)) => texts_in(items),
            _ => Seq::empty(),
        }
    }

    /// The document's type: the string under `type`.
    pub open spec fn object_type(self) -> Option<Seq<char>> {
        self.text_member("type"@)
    }

    /// The document's tags: the strings of the array under `tags`.
    pub open spec fn tags(self) -> Seq<Seq<char>> {
        self.text_list("tags"@)
    }

    /// The identifier of the document's parent: the string under `parent`.
    pub open spec fn parent(self) -> Option<Seq<char>> {
        self.text_member("parent"@)
    }

    /// The identifiers the document links to: the strings of the array under
    /// `links`.
    pub open spec fn links(self) -> Seq<Seq<char>> {
        self.text_list("links"@)
    }
}

impl View for Object {
    type V = ObjectView;

    open spec fn view(&self) -> ObjectView {
        ObjectView { id: self.id@, data: self.data@ }
    }
}

impl Object {
    /// A document with a freshly generated identifier.
    pub fn new(data: Json) -> (obj: Object)
        ensures
            obj.data == data,
            is_random_id(obj.id@),
    {
        Object { id: random_id(), data }
    }

    /// A document with the identifier given.
    pub fn with_id(id: String, data: Json) -> (obj: Object)
        ensures
            obj.id == id,
            obj.data == data,
    {
        Object { id, data }
    }

    fn text_member(&self, name: &str) -> (r: Option<&str>)
        ensures
            slice_text(r) == self@.text_member(name@),
    {
        match self.data.get(name) {
            Some(v) => v.as_str(),
            None => None,
        }
    }

    fn text_list(&self, name: &str) -> (r: Vec<&str>)
        ensures
            slice_texts(r@) == self@.text_list(name@),
    {
        match self.data.get(name) {
            Some(v) => match v.as_array() {
                Some(items) => Json::strings(items),
                None => {
                    let empty: Vec<&str> = Vec::new();
                    assert(slice_texts(empty@) =~= Seq::empty());
                    empty
                },
            },
            None => {
                let empty: Vec<&str> = Vec::new();
                assert(slice_texts(empty@) =~= Seq::empty());
                empty
            },
        }
    }

    /// The document's type: the string under `type`.
    pub fn object_type(&self) -> (r: Option<&str>)
        ensures
            slice_text(r) == self@.object_type(),
    {
        self.text_member("type")
    }

    /// The document's tags: the strings of the array under `tags`.
    pub fn tags(&self) -> (r: Vec<&str>)
        ensures
            slice_texts(r@) == self@.tags(),
    {
        self.text_list("tags")
    }

    /// The identifier of the document's parent: the string under `parent`.
    pub fn parent(&self) -> (r: Option<&str>)
        ensures
            slice_text(r) == self@.parent(),
    {
        self.text_member("parent")
    }

    /// The identifiers the document links to: the strings of the array under
    /// `links`.
    pub fn links(&self) -> (r: Vec<&str>)
        ensures
            slice_texts(r@) == self@.links(),
    {
        self.text_list("links")
    }
}

} // verus!
