//! The filter specification of a query.

use crate::object::{Object, ObjectView};
use crate::text::{holds_text, same_text};
use vstd::prelude::*;

verus! {

/// Optional constraints on a query, combined with AND. An absent field
/// constrains nothing.
#[derive(Debug, Clone, PartialEq, Eq)]
pub struct Query {
    /// Only documents whose `type` member is this string.
    pub object_type: Option<String>,
    /// Only documents whose `tags` array holds this string.
    pub tag: Option<String>,
    /// Only documents whose `parent` member is this string.
    pub parent: Option<String>,
    /// At most this many documents.
    pub limit: Option<usize>,
}

/// What a `Query` asks for, as mathematics.
pub struct QueryView {
    pub object_type: Option<Seq<char>>,
    pub tag: Option<Seq<char>>,
    pub parent: Option<Seq<char>>,
    pub limit: Option<nat>,
}

impl QueryView {
    /// The query that constrains nothing.
    pub open spec fn unconstrained() -> QueryView {
        QueryView { object_type: None, tag: None, parent: None, limit: None }
    }

    /// Does `doc` meet every filter that is set? The type and the parent must
    /// be the string filtered by, and the tag must be among the tags. The
    /// limit is no filter.
    pub open spec fn admits(self, doc: ObjectView) -> bool {
        &&& self.object_type matches Some(t) ==> doc.object_type() == Some(t)
        &&& self.tag matches Some(t) ==> doc.tags().contains(t)
        &&& self.parent matches Some(p) ==> doc.parent() == Some(p)
    }
}

/// The characters of an optional string.
pub open spec fn text_of(s: Option<String>) -> Option<Seq<char>> {
    match s {
        Some(t) => Some(t@),
        None => None,
    }
}

impl View for Query {
    type V = QueryView;

    open spec fn view(&self) -> QueryView {
        QueryView {
            object_type: text_of(self.object_type),
            tag: text_of(self.tag),
            parent: text_of(self.parent),
            limit: match self.limit {
                Some(l) => Some(l as nat),
                None => None,
            },
        }
    }
}

impl Query {
    /// The query that constrains nothing.
    pub fn new() -> (q: Query)
        ensures
            q@ == QueryView::unconstrained(),
    {
        Query { object_type: None, tag: None, parent: None, limit: None }
    }

    /// The same query, with the type filter set to `t`.
    pub fn with_type(self, t: &str) -> (q: Query)
        ensures
            q@ == (QueryView { object_type: Some(t@), ..self@ }),
    {
        let mut q = self;
        q.object_type = Some(t.to_owned());
        q
    }

    /// The same query, with the tag filter set to `t`.
    pub fn with_tag(self, t: &str) -> (q: Query)
        ensures
            q@ == (QueryView { tag: Some(t@), ..self@ }),
    {
        let mut q = self;
        q.tag = Some(t.to_owned());
        q
    }

    /// The same query, with the parent filter set to `p`.
    pub fn with_parent(self, p: &str) -> (q: Query)
        ensures
            q@ == (QueryView { parent: Some(p@), ..self@ }),
    {
        let mut q = self;
        q.parent = Some(p.to_owned());
        q
    }

    /// The same query, with the limit set to `l`.
    pub fn with_limit(self, l: usize) -> (q: Query)
        ensures
            q@ == (QueryView { limit: Some(l as nat), ..self@ }),
    {
        let mut q = self;
        q.limit = Some(l);
        q
    }
}

impl Query {
    /// Does `obj` meet every filter that is set?
    pub fn admits(&self, obj: &Object) -> (r: bool)
        ensures
            r == self@.admits(obj@),
    {
        let type_fits = match &self.object_type {
            Some(t) => match obj.object_type() {
                Some(found) => same_text(found, t.as_str()),
                None => false,
            },
            None => true,
        };
        let tag_fits = match &self.tag {
            Some(t) => holds_text(&obj.tags(), t.as_str()),
            None => true,
        };
        let parent_fits = match &self.parent {
            Some(p) => match obj.parent() {
                Some(found) => same_text(found, p.as_str()),
                None => false,
            },
            None => true,
        };
        type_fits && tag_fits && parent_fits
    }
}

impl Default for Query {
    fn default() -> (q: Query)
        ensures
            q@ == QueryView::unconstrained(),
    {
        Query::new()
    }
}

} // verus!
