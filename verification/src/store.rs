//! The store's side of its conversation with the engine.
//!
//! The store holds no connection. Each operation names the next thing to do
//! on one (an [`Action`]) and waits for what came of it (an [`Answer`]);
//! [`Pending::resume`] then says what follows: another action, the
//! operation's result, or its failure.

use crate::codec::{json_parse, json_text};
use crate::error::Error;
use crate::json::{Json, JsonView};
use crate::object::{is_random_id, Object, ObjectView};
use crate::query::{Query, QueryView};
use crate::statement::{
    bound_one, bound_two, children_statement, law_children_is_parent_query, query_statement,
    unbound, Statement, StatementView, CREATE_INDEX, CREATE_TABLE, DELETE, INSERT, SELECT_LINKING,
    SELECT_ONE, UPDATE,
};
use crate::text::{holds_text, same_text};
use vstd::prelude::*;

verus! {

/// The location of a transient store, kept in memory.
pub const IN_MEMORY: &'static str = ":memory:";

/// What the store says of an answer that it did not wait for.
pub const OUT_OF_TURN: &'static str = "the engine answered out of turn";

/// One row of a selection: the identifier and the data as JSON text.
#[derive(Debug, Clone, PartialEq, Eq)]
pub struct Row {
    pub id: String,
    pub data: String,
}

/// What is to be done on the connection next.
#[derive(Debug, Clone, PartialEq, Eq)]
pub enum Action {
    /// Open the engine at this location and connect to it.
    Connect(String),
    /// Run the statement and report how many rows it changed.
    Execute(Statement),
    /// Start the selection.
    Select(Statement),
    /// Read the next row of the selection.
    Fetch,
}

/// An action as mathematics.
pub enum ActionView {
    Connect(Seq<char>),
    Execute(StatementView),
    Select(StatementView),
    Fetch,
}

impl View for Action {
    type V = ActionView;

    open spec fn view(&self) -> ActionView {
        match self {
            Action::Connect(location) => ActionView::Connect(location@),
            Action::Execute(statement) => ActionView::Execute(statement@),
            Action::Select(statement) => ActionView::Select(statement@),
            Action::Fetch => ActionView::Fetch,
        }
    }
}

/// What came of an action.
#[derive(Debug, Clone, PartialEq, Eq)]
pub enum Answer {
    /// The connection stands.
    Connected,
    /// The statement ran and changed this many rows.
    Changed(u64),
    /// The selection has started.
    Selected,
    /// The next row of the selection.
    Row(Row),
    /// The selection has no more rows.
    End,
    /// The engine failed, and said this.
    Failed(String),
}


/// What a listing lets through.
#[derive(Debug, Clone, PartialEq, Eq)]
pub enum Filter {
    /// The documents that meet the query.
    Matching(Query),
    /// The documents whose links hold this identifier.
    LinkingTo(String),
}

/// A filter as mathematics.
pub enum FilterView {
    Matching(QueryView),
    LinkingTo(Seq<char>),
}

impl View for Filter {
    type V = FilterView;

    open spec fn view(&self) -> FilterView {
        match self {
            Filter::Matching(q) => FilterView::Matching(q@),
            Filter::LinkingTo(id) => FilterView::LinkingTo(id@),
        }
    }
}

impl FilterView {
    /// Does the filter let `doc` through?
    pub open spec fn admits(self, doc: ObjectView) -> bool {
        match self {
            FilterView::Matching(q) => q.admits(doc),
            FilterView::LinkingTo(id) => doc.links().contains(id),
        }
    }

    /// The most documents a listing may hold, where it is bounded.
    pub open spec fn limit(self) -> Option<nat> {
        match self {
            FilterView::Matching(q) => q.limit,
            FilterView::LinkingTo(_) => None,
        }
    }

    /// Is a listing of `n` documents full?
    pub open spec fn full_at(self, n: int) -> bool {
        match self.limit() {
            Some(l) => n >= l,
            None => false,
        }
    }

    /// Every document of `found` passes the filter, and they are no more
    /// than the limit allows.
    pub open spec fn holds(self, found: Seq<Object>) -> bool {
        &&& forall|i: int| 0 <= i < found.len() ==> self.admits(#[trigger] found[i]@)
        &&& self.limit() matches Some(l) ==> found.len() <= l
    }
}

impl Filter {
    /// Does the filter let `obj` through?
    pub fn admits(&self, obj: &Object) -> (r: bool)
        ensures
            r == self@.admits(obj@),
    {
        match self {
            Filter::Matching(q) => q.admits(obj),
            Filter::LinkingTo(id) => holds_text(&obj.links(), id.as_str()),
        }
    }

    /// Is a listing of `n` documents full?
    pub fn full_at(&self, n: usize) -> (r: bool)
        ensures
            r == self@.full_at(n as int),
    {
        match self {
            Filter::Matching(q) => match q.limit {
                Some(l) => n >= l,
                None => false,
            },
            Filter::LinkingTo(_) => false,
        }
    }
}

/// What an operation under way is waiting for.
#[derive(Debug, PartialEq)]
pub enum Stage {
    Connecting,
    CreatingTable,
    CreatingIndex,
    /// The document with this identifier is being inserted.
    Inserting(String),
    /// The document with this identifier is being replaced or deleted.
    Mutating(String),
    /// The document with this identifier is being looked up.
    LookingUp(String),
    LookingUpRow(String),
    Listing(Filter),
    /// The documents that the filter has let through so far.
    ListingRow(Filter, Vec<Object>),
}

/// An operation under way: the action to carry out, and what the store will
/// make of the answer.
#[derive(Debug, PartialEq)]
pub struct Pending {
    pub action: Action,
    pub stage: Stage,
}

/// A store whose table and index are known to exist. The only way to one is
/// to see `Store::open` through to its end.
#[derive(Debug, PartialEq)]
pub struct Store {
    ready: (),
}

/// The result of an operation.
#[derive(Debug, PartialEq)]
pub enum Reply {
    Opened(Store),
    /// The identifier of the new document.
    Created(String),
    Found(Option<Object>),
    Listed(Vec<Object>),
    Changed,
}

/// What follows an answer.
#[derive(Debug, PartialEq)]
pub enum Step {
    Next(Pending),
    Done(Reply),
}

/// The decimal digit of `d`, for `d` below ten.
impl Stage {
    /// Does the stage wait for rows?
    pub open spec fn reads_rows(self) -> bool {
        self is LookingUpRow || self is ListingRow
    }
}

/// What follows a row whose identifier is `id` and whose data reads as
/// `data`.
///
/// A lookup is done and has found the document, if the row is the one asked
/// for. A listing drops a document that its filter does not let through and
/// goes on; one that it lets through joins the documents found, and the
/// listing is done if it is full then and goes on otherwise. At any other
/// stage, and at a lookup for another identifier, the row was not asked for,
/// which is the engine's failure.
pub open spec fn follows_row(stage: Stage, id: String, data: JsonView, r: Result<Step, Error>) -> bool {
    let doc = ObjectView { id: id@, data };
    match stage {
        Stage::LookingUpRow(wanted) => if id@ == wanted@ {
            &&& r matches Ok(Step::Done(Reply::Found(Some(obj))))
            &&& obj.id == id
            &&& obj.data@ == data
        } else {
            r matches Err(e) && e is Database
        },
        Stage::ListingRow(filter, found) => if !filter@.admits(doc) {
            r == Ok::<Step, Error>(
                Step::Next(Pending { action: Action::Fetch, stage: Stage::ListingRow(filter, found) }),
            )
        } else if filter@.full_at(found.len() + 1) {
            &&& r matches Ok(Step::Done(Reply::Listed(all)))
            &&& grown(found@, all@, id, data)
        } else {
            &&& r matches Ok(Step::Next(p))
            &&& p.action is Fetch
            &&& p.stage matches Stage::ListingRow(same, more)
            &&& same == filter
            &&& grown(found@, more@, id, data)
        },
        _ => r matches Err(e) && e is Database,
    }
}

/// `more` is `found` with one document at its end, which has the identifier
/// `id` and holds `data`.
pub open spec fn grown(found: Seq<Object>, more: Seq<Object>, id: String, data: JsonView) -> bool {
    &&& more.len() == found.len() + 1
    &&& more.drop_last() == found
    &&& more.last().id == id
    &&& more.last().data@ == data
}

impl Pending {
    /// The action fits the stage, and the documents of a listing under way
    /// have passed its filter and leave room under its limit.
    pub open spec fn wf(self) -> bool {
        match self.stage {
            Stage::Connecting => self.action is Connect,
            Stage::CreatingTable => self.action@ == ActionView::Execute(unbound(CREATE_TABLE@)),
            Stage::CreatingIndex => self.action@ == ActionView::Execute(unbound(CREATE_INDEX@)),
            Stage::Inserting(_) => self.action is Execute,
            Stage::Mutating(_) => self.action is Execute,
            Stage::LookingUp(_) => self.action is Select,
            Stage::LookingUpRow(_) => self.action is Fetch,
            Stage::Listing(_) => self.action is Select,
            Stage::ListingRow(filter, found) => {
                &&& self.action is Fetch
                &&& filter@.holds(found@)
                &&& !filter@.full_at(found.len() as int)
            },
        }
    }

    /// What a step from a well-formed operation keeps: the next operation is
    /// well-formed, a lookup keeps its identifier and a listing its filter; a
    /// document found has the identifier looked up; the documents listed have
    /// all passed the filter and are no more than its limit allows.
    pub open spec fn keeps(self, r: Result<Step, Error>) -> bool {
        match r {
            Ok(Step::Next(p)) => {
                &&& p.wf()
                &&& self.stage matches Stage::LookingUp(wanted) ==> p.stage == Stage::LookingUpRow(
                    wanted,
                )
                &&& self.stage matches Stage::Listing(filter) ==> p.stage matches Stage::ListingRow(
                    same,
                    _,
                ) && same == filter
                &&& self.stage matches Stage::ListingRow(filter, _) ==> p.stage
                    matches Stage::ListingRow(same, _) && same == filter
            },
            Ok(Step::Done(Reply::Found(Some(obj)))) => self.stage matches Stage::LookingUpRow(wanted)
                && obj.id@ == wanted@,
            Ok(Step::Done(Reply::Listed(all))) => match self.stage {
                Stage::Listing(filter) => filter@.holds(all@),
                Stage::ListingRow(filter, _) => filter@.holds(all@),
                _ => false,
            },
            _ => true,
        }
    }

    /// What follows once the data of a row has been read as JSON: `read` is
    /// the outcome of reading it. A row that cannot be read ends the
    /// operation with the reader's error; for one that can, see
    /// `follows_row`.
    pub fn resume_read(self, id: String, read: Result<Json, Error>) -> (r: Result<Step, Error>)
        ensures
            match read {
                Ok(data) => follows_row(self.stage, id, data@, r),
                Err(e) => if self.stage.reads_rows() {
                    r == Err::<Step, Error>(e)
                } else {
                    r matches Err(e) && e is Database
                },
            },
            steps_to(self, r),
    {
        match self.stage {
            Stage::LookingUpRow(wanted) => match read {
                Ok(data) => if same_text(id.as_str(), wanted.as_str()) {
                    Ok(Step::Done(Reply::Found(Some(Object::with_id(id, data)))))
                } else {
                    Err(out_of_turn())
                },
                Err(e) => Err(e),
            },
            Stage::ListingRow(filter, found) => match read {
                Ok(data) => {
                    let obj = Object::with_id(id, data);
                    if !filter.admits(&obj) {
                        Ok(
                            Step::Next(
                                Pending {
                                    action: Action::Fetch,
                                    stage: Stage::ListingRow(filter, found),
                                },
                            ),
                        )
                    } else {
                        let mut more = found;
                        more.push(obj);
                        assert(more@.drop_last() =~= found@);
                        if filter.full_at(more.len()) {
                            Ok(Step::Done(Reply::Listed(more)))
                        } else {
                            Ok(
                                Step::Next(
                                    Pending {
                                        action: Action::Fetch,
                                        stage: Stage::ListingRow(filter, more),
                                    },
                                ),
                            )
                        }
                    }
                },
                Err(e) => Err(e),
            },
            _ => Err(out_of_turn()),
        }
    }

    /// What follows `answer`.
    ///
    /// A failure of the engine ends any operation with `Error::Database`.
    /// Opening goes from the connection to the table to the index, and then
    /// yields the store. An insertion yields the identifier. A replacement or
    /// deletion that changed no row ends with `Error::NotFound` of its
    /// identifier, and is done otherwise. A lookup is done at its first row,
    /// or at the end without one. A listing whose limit is zero is done at
    /// once; otherwise it takes row after row until it is full or the rows
    /// end. A row whose data is not JSON text ends the operation with
    /// `Error::Json`; for one whose data is, see `follows_row`. An answer
    /// that the stage does not wait for is the engine's failure.
    pub fn resume(self, answer: Answer) -> (r: Result<Step, Error>)
        ensures
            match (self.stage, answer) {
                (_, Answer::Failed(said)) => r == Err::<Step, Error>(Error::Database(said)),
                (Stage::Connecting, Answer::Connected) => r matches Ok(Step::Next(p))
                    && p.stage is CreatingTable && p.wf(),
                (Stage::CreatingTable, Answer::Changed(_)) => r matches Ok(Step::Next(p))
                    && p.stage is CreatingIndex && p.wf(),
                (Stage::CreatingIndex, Answer::Changed(_)) => r matches Ok(
                    Step::Done(Reply::Opened(_)),
                ),
                (Stage::Inserting(id), Answer::Changed(_)) => r == Ok::<Step, Error>(
                    Step::Done(Reply::Created(id)),
                ),
                (Stage::Mutating(id), Answer::Changed(n)) => if n == 0 {
                    r == Err::<Step, Error>(Error::NotFound(id))
                } else {
                    r == Ok::<Step, Error>(Step::Done(Reply::Changed))
                },
                (Stage::LookingUp(id), Answer::Selected) => r == Ok::<Step, Error>(
                    Step::Next(Pending { action: Action::Fetch, stage: Stage::LookingUpRow(id) }),
                ),
                (Stage::LookingUpRow(_), Answer::End) => r == Ok::<Step, Error>(
                    Step::Done(Reply::Found(None)),
                ),
                (Stage::Listing(filter), Answer::Selected) => if filter@.full_at(0) {
                    r matches Ok(Step::Done(Reply::Listed(none))) && none@.len() == 0
                } else {
                    &&& r matches Ok(Step::Next(p))
                    &&& p.action is Fetch
                    &&& p.stage matches Stage::ListingRow(same, none)
                    &&& same == filter
                    &&& none@.len() == 0
                },
                (Stage::ListingRow(_, found), Answer::End) => r == Ok::<Step, Error>(
                    Step::Done(Reply::Listed(found)),
                ),
                (stage, Answer::Row(row)) => match json_parse(row.data@) {
                    Some(data) => follows_row(stage, row.id, data, r),
                    None => r matches Err(e) && if stage.reads_rows() {
                        e is Json
                    } else {
                        e is Database
                    },
                },
                _ => r matches Err(e) && e is Database,
            },
            steps_to(self, r),
    {
        match answer {
            Answer::Failed(said) => Err(Error::Database(said)),
            Answer::Connected => match self.stage {
                Stage::Connecting => Ok(
                    Step::Next(
                        Pending {
                            action: Action::Execute(Statement::plain(CREATE_TABLE)),
                            stage: Stage::CreatingTable,
                        },
                    ),
                ),
                _ => Err(out_of_turn()),
            },
            Answer::Changed(n) => match self.stage {
                Stage::CreatingTable => Ok(
                    Step::Next(
                        Pending {
                            action: Action::Execute(Statement::plain(CREATE_INDEX)),
                            stage: Stage::CreatingIndex,
                        },
                    ),
                ),
                Stage::CreatingIndex => Ok(Step::Done(Reply::Opened(Store { ready: () }))),
                Stage::Inserting(id) => Ok(Step::Done(Reply::Created(id))),
                Stage::Mutating(id) => if n == 0 {
                    Err(Error::NotFound(id))
                } else {
                    Ok(Step::Done(Reply::Changed))
                },
                _ => Err(out_of_turn()),
            },
            Answer::Selected => match self.stage {
                Stage::LookingUp(id) => Ok(
                    Step::Next(Pending { action: Action::Fetch, stage: Stage::LookingUpRow(id) }),
                ),
                Stage::Listing(filter) => if filter.full_at(0) {
                    Ok(Step::Done(Reply::Listed(Vec::new())))
                } else {
                    Ok(
                        Step::Next(
                            Pending {
                                action: Action::Fetch,
                                stage: Stage::ListingRow(filter, Vec::new()),
                            },
                        ),
                    )
                },
                _ => Err(out_of_turn()),
            },
            Answer::Row(row) => {
                let read = Json::parse(row.data.as_str());
                self.resume_read(row.id, read)
            },
            Answer::End => match self.stage {
                Stage::LookingUpRow(_) => Ok(Step::Done(Reply::Found(None))),
                Stage::ListingRow(_, found) => Ok(Step::Done(Reply::Listed(found))),
                _ => Err(out_of_turn()),
            },
        }
    }
}

/// The failure of an engine that answers what it was not asked: a database
/// error that says `OUT_OF_TURN`.
fn out_of_turn() -> (e: Error)
    ensures
        e matches Error::Database(said) && said@ == OUT_OF_TURN@,
{
    Error::Database(OUT_OF_TURN.to_owned())
}

impl Store {
    /// Begins to open the store at `location`: connect, then make sure that
    /// the table and the index on the type exist. Both statements leave what
    /// exists alone, so opening a location again changes nothing in it.
    pub fn open(location: &str) -> (p: Pending)
        ensures
            p.wf(),
            p.stage is Connecting,
            p.action@ == ActionView::Connect(location@),
    {
        Pending { action: Action::Connect(location.to_owned()), stage: Stage::Connecting }
    }

    /// Begins to open a transient store, kept in memory.
    pub fn open_memory() -> (p: Pending)
        ensures
            p.wf(),
            p.stage is Connecting,
            p.action@ == ActionView::Connect(IN_MEMORY@),
    {
        Store::open(IN_MEMORY)
    }

    /// Begins to insert a document whose identifier is `id` and whose data,
    /// as JSON text, is `text`.
    pub fn create_with(&self, id: String, text: String) -> (p: Pending)
        ensures
            p.wf(),
            p.stage == Stage::Inserting(id),
            p.action@ == ActionView::Execute(bound_two(INSERT@, id@, text@)),
    {
        let statement = Statement::with_two(INSERT, id.clone(), text);
        Pending { action: Action::Execute(statement), stage: Stage::Inserting(id) }
    }

    /// Begins to insert a new document that holds `data`, under a freshly
    /// generated identifier. Fails with `Error::Json` where `data` cannot be
    /// written as JSON text, and only then.
    pub fn create(&self, data: Json) -> (r: Result<Pending, Error>)
        ensures
            match r {
                Ok(p) => {
                    &&& p.wf()
                    &&& p.stage matches Stage::Inserting(id)
                    &&& is_random_id(id@)
                    &&& json_text(data@) matches Some(text)
                    &&& p.action@ == ActionView::Execute(bound_two(INSERT@, id@, text))
                },
                Err(e) => e is Json && json_text(data@) is None,
            },
    {
        let obj = Object::new(data);
        match obj.data.to_text() {
            Ok(text) => Ok(self.create_with(obj.id, text)),
            Err(e) => Err(e),
        }
    }

    /// Begins to look up the document with the identifier `id`.
    pub fn get(&self, id: &str) -> (p: Pending)
        ensures
            p.wf(),
            p.stage matches Stage::LookingUp(wanted) && wanted@ == id@,
            p.action@ == ActionView::Select(bound_one(SELECT_ONE@, id@)),
    {
        Pending {
            action: Action::Select(Statement::with_one(SELECT_ONE, id.to_owned())),
            stage: Stage::LookingUp(id.to_owned()),
        }
    }

    /// Begins to list the documents that meet every filter of `q`, at most as
    /// many as its limit allows.
    pub fn query(&self, q: Query) -> (p: Pending)
        ensures
            p.wf(),
            p.stage == Stage::Listing(Filter::Matching(q)),
            p.action@ == ActionView::Select(query_statement(q@)),
    {
        Pending {
            action: Action::Select(Statement::for_query(&q)),
            stage: Stage::Listing(Filter::Matching(q)),
        }
    }

    /// Begins to replace the data of the document `id` by the JSON text
    /// `text`.
    pub fn update_with(&self, id: &str, text: String) -> (p: Pending)
        ensures
            p.wf(),
            p.stage matches Stage::Mutating(target) && target@ == id@,
            p.action@ == ActionView::Execute(bound_two(UPDATE@, text@, id@)),
    {
        let statement = Statement::with_two(UPDATE, text, id.to_owned());
        Pending { action: Action::Execute(statement), stage: Stage::Mutating(id.to_owned()) }
    }

    /// Begins to replace the whole data of the document `id` by `data`. Fails
    /// with `Error::Json` where `data` cannot be written as JSON text, and
    /// only then.
    pub fn update(&self, id: &str, data: Json) -> (r: Result<Pending, Error>)
        ensures
            match r {
                Ok(p) => {
                    &&& p.wf()
                    &&& p.stage matches Stage::Mutating(target)
                    &&& target@ == id@
                    &&& json_text(data@) matches Some(text)
                    &&& p.action@ == ActionView::Execute(bound_two(UPDATE@, text, id@))
                },
                Err(e) => e is Json && json_text(data@) is None,
            },
    {
        match data.to_text() {
            Ok(text) => Ok(self.update_with(id, text)),
            Err(e) => Err(e),
        }
    }

    /// Begins to delete the document `id`.
    pub fn delete(&self, id: &str) -> (p: Pending)
        ensures
            p.wf(),
            p.stage matches Stage::Mutating(target) && target@ == id@,
            p.action@ == ActionView::Execute(bound_one(DELETE@, id@)),
    {
        Pending {
            action: Action::Execute(Statement::with_one(DELETE, id.to_owned())),
            stage: Stage::Mutating(id.to_owned()),
        }
    }

    /// Begins to list the documents whose `links` hold `id`.
    pub fn backlinks(&self, id: &str) -> (p: Pending)
        ensures
            p.wf(),
            p.stage matches Stage::Listing(filter) && filter@ == FilterView::LinkingTo(id@),
            p.action@ == ActionView::Select(bound_one(SELECT_LINKING@, id@)),
    {
        Pending {
            action: Action::Select(Statement::with_one(SELECT_LINKING, id.to_owned())),
            stage: Stage::Listing(Filter::LinkingTo(id.to_owned())),
        }
    }

    /// Begins to list the documents whose parent is `id`: the query with only
    /// the parent filter set.
    pub fn children(&self, id: &str) -> (p: Pending)
        ensures
            p.wf(),
            p.stage matches Stage::Listing(filter) && filter@ == FilterView::Matching(
                QueryView { parent: Some(id@), ..QueryView::unconstrained() },
            ),
            p.action@ == ActionView::Select(children_statement(id@)),
    {
        proof {
            law_children_is_parent_query(id@);
        }
        self.query(Query::new().with_parent(id))
    }
}

/// What `Pending::resume` promises of every step, whatever the answer: from
/// a well-formed operation, the result `r` keeps what `Pending::keeps` says.
pub open spec fn steps_to(p: Pending, r: Result<Step, Error>) -> bool {
    p.wf() ==> p.keeps(r)
}

/// Is `trace` a run of such steps from a well-formed operation, one leading
/// to the next and the last to `last`?
pub open spec fn runs_to(trace: Seq<Pending>, last: Result<Step, Error>) -> bool {
    &&& trace.len() > 0
    &&& trace[0].wf()
    &&& forall|i: int|
        0 <= i < trace.len() - 1 ==> steps_to(
            #[trigger] trace[i],
            Ok::<Step, Error>(Step::Next(trace[i + 1])),
        )
    &&& steps_to(trace.last(), last)
}

/// However many rows the engine hands over and whatever they hold: a listing
/// that runs to its end holds only documents that pass its filter, and no
/// more of them than its limit allows.
pub proof fn law_listing_holds(
    trace: Seq<Pending>,
    last: Result<Step, Error>,
    filter: Filter,
    all: Vec<Object>,
)
    requires
        runs_to(trace, last),
        trace[0].stage == Stage::Listing(filter),
        last == Ok::<Step, Error>(Step::Done(Reply::Listed(all))),
    ensures
        filter@.holds(all@),
{
    assert forall|i: int| 0 <= i < trace.len() implies (#[trigger] trace[i]).wf() && (trace[i].stage
        == Stage::Listing(filter) || (trace[i].stage matches Stage::ListingRow(same, _) && same
        == filter)) by {
        lemma_listing_goes_on(trace, filter, i);
    }
    let end = trace.last();
    assert(end == trace[trace.len() - 1]);
}

proof fn lemma_listing_goes_on(trace: Seq<Pending>, filter: Filter, i: int)
    requires
        trace.len() > 0,
        trace[0].wf(),
        trace[0].stage == Stage::Listing(filter),
        forall|j: int|
            0 <= j < trace.len() - 1 ==> steps_to(
                #[trigger] trace[j],
                Ok::<Step, Error>(Step::Next(trace[j + 1])),
            ),
        0 <= i < trace.len(),
    ensures
        trace[i].wf(),
        trace[i].stage == Stage::Listing(filter) || (trace[i].stage matches Stage::ListingRow(
            same,
            _,
        ) && same == filter),
    decreases i,
{
    if i > 0 {
        lemma_listing_goes_on(trace, filter, i - 1);
        assert(steps_to(trace[i - 1], Ok::<Step, Error>(Step::Next(trace[i - 1 + 1]))));
    }
}

/// A listing by type holds only documents of that type; one by tag only
/// documents that carry the tag; one by parent only documents of that
/// parent; and a limited one no more documents than its limit.
pub proof fn law_listed_meet_the_query(q: QueryView, found: Seq<Object>, i: int)
    requires
        FilterView::Matching(q).holds(found),
        0 <= i < found.len(),
    ensures
        q.object_type matches Some(t) ==> found[i]@.object_type() == Some(t),
        q.tag matches Some(t) ==> found[i]@.tags().contains(t),
        q.parent matches Some(p) ==> found[i]@.parent() == Some(p),
        q.limit matches Some(l) ==> found.len() <= l,
{
    assert(FilterView::Matching(q).admits(found[i]@));
}

/// The backlinks of an identifier hold only documents whose links hold it: no
/// document is a backlink of what it does not link to.
pub proof fn law_backlinks_link(id: Seq<char>, found: Seq<Object>, i: int)
    requires
        FilterView::LinkingTo(id).holds(found),
        0 <= i < found.len(),
    ensures
        found[i]@.links().contains(id),
{
    assert(FilterView::LinkingTo(id).admits(found[i]@));
}

/// A lookup that runs to its end and finds a document has found the one
/// with the identifier it looked up.
pub proof fn law_lookup_finds_what_it_asked_for(
    first: Pending,
    second: Pending,
    last: Result<Step, Error>,
    wanted: String,
    obj: Object,
)
    requires
        first.wf(),
        first.stage == Stage::LookingUp(wanted),
        steps_to(first, Ok::<Step, Error>(Step::Next(second))),
        steps_to(second, last),
        last == Ok::<Step, Error>(Step::Done(Reply::Found(Some(obj)))),
    ensures
        obj.id@ == wanted@,
{
}

} // verus!
