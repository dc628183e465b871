//! The store adapter: which row operation each request needs, and what the
//! store's answer means for the caller.

use crate::document::{Document, DocumentRow, DocumentView};
use crate::envelope::DocumentQuery;
use crate::error::{Error, ErrorView};
use crate::ident::{parse_id, uuid_parsed};
use crate::timestamp::{range_ok, resolve_window, resolve_window_now, resolved, validate_range, Timestamp, Window};
use vstd::prelude::*;
use vstd::string::StringExecFns;

verus! {

/// A single parameterized statement against the store.
#[derive(Debug, Clone, PartialEq, Eq)]
pub enum RowOp {
    /// Insert a row for the owner with the payload; the store assigns the
    /// identity and both instants.
    Insert { user_id: u128, data: String },
    /// Replace the payload of the row with the identity.
    Update { id: u128, data: String },
    /// Remove the row with the identity.
    Delete { id: u128 },
    /// Fetch the row with the identity.
    Select { id: u128 },
    /// Fetch the owner's rows created within the window, oldest first.
    SelectRange { user_id: u128, window: Window },
}

impl RowOp {
    /// The text of the statement; its parameters are numbered in the order
    /// of the operation's fields, a window counting as two.
    pub open spec fn statement_text(self) -> Seq<char> {
        match self {
            RowOp::Insert { .. } => "INSERT INTO dc.documents (user_id, data) VALUES ($1, $2) RETURNING *"@,
            RowOp::Update { .. } => "UPDATE dc.documents SET data = $1 WHERE id = $2 RETURNING *"@,
            RowOp::Delete { .. } => "DELETE FROM dc.documents WHERE id = $1 RETURNING *"@,
            RowOp::Select { .. } => "SELECT * FROM dc.documents WHERE id = $1"@,
            RowOp::SelectRange { .. } => "SELECT * FROM dc.documents WHERE user_id = $1 AND created_at >= $2 AND created_at < $3 ORDER BY created_at"@,
        }
    }

    /// Whether the operation can change what the store holds.
    pub open spec fn writes(self) -> bool {
        self is Insert || self is Update || self is Delete
    }

    /// The text of the statement.
    pub fn statement(&self) -> (text: &'static str)
        ensures
            text@ == self.statement_text(),
    {
        match self {
            RowOp::Insert { .. } => "INSERT INTO dc.documents (user_id, data) VALUES ($1, $2) RETURNING *",
            RowOp::Update { .. } => "UPDATE dc.documents SET data = $1 WHERE id = $2 RETURNING *",
            RowOp::Delete { .. } => "DELETE FROM dc.documents WHERE id = $1 RETURNING *",
            RowOp::Select { .. } => "SELECT * FROM dc.documents WHERE id = $1",
            RowOp::SelectRange { .. } => "SELECT * FROM dc.documents WHERE user_id = $1 AND created_at >= $2 AND created_at < $3 ORDER BY created_at",
        }
    }
}

/// The store's answer to an operation that concerns one row.
#[derive(Debug, Clone, PartialEq, Eq)]
pub enum StoreOutcome {
    /// The row that the statement returned.
    Row(DocumentRow),
    /// The statement affected and returned no row.
    NoRow,
    /// The store failed; the text is its own account of the failure.
    Failed(String),
}

/// The operation that creates a document, given what the owner's text was
/// read as: an insert for an owner that is an identity, and the refusal of
/// the owner otherwise.
pub open spec fn create_plan(user_id: String, owner: Option<u128>, data: String) -> Result<RowOp, Error> {
    match owner {
        Some(owner) => Ok(RowOp::Insert { user_id: owner, data }),
        None => Err(Error::InvalidUserId(user_id)),
    }
}

/// The operation that replaces a payload, given what the identity's text
/// was read as. A text that is no identity names no document.
pub open spec fn update_plan(id: Option<u128>, data: String) -> Result<RowOp, Error> {
    match id {
        Some(id) => Ok(RowOp::Update { id, data }),
        None => Err(Error::NotFound),
    }
}

/// The operation that removes a document, given what the identity's text
/// was read as.
pub open spec fn delete_plan(id: Option<u128>) -> Result<RowOp, Error> {
    match id {
        Some(id) => Ok(RowOp::Delete { id }),
        None => Err(Error::NotFound),
    }
}

/// The operation that fetches a document, given what the identity's text
/// was read as.
pub open spec fn get_plan(id: Option<u128>) -> Result<RowOp, Error> {
    match id {
        Some(id) => Ok(RowOp::Select { id }),
        None => Err(Error::NotFound),
    }
}

/// The operation that answers a query at time `now`, given what the
/// owner's text was read as. Bounds that contradict each other are refused
/// first and as given, before any alignment; then an owner that is no
/// identity; what is left selects the owner's rows in the resolved window.
pub open spec fn query_plan(query: DocumentQuery, owner: Option<u128>, now: Timestamp) -> Result<RowOp, Error> {
    if !range_ok(query.start, query.end) {
        Err(Error::InvalidTime)
    } else {
        match owner {
            Some(owner) => Ok(
                RowOp::SelectRange { user_id: owner, window: resolved(query.start, query.end, now) },
            ),
            None => Err(Error::InvalidUserId(query.user_id)),
        }
    }
}

/// Plans the creation of a document from the owner's text as already read.
pub fn create_for(user_id: String, owner: Option<u128>, data: String) -> (r: Result<RowOp, Error>)
    ensures
        r == create_plan(user_id, owner, data),
{
    match owner {
        Some(owner) => Ok(RowOp::Insert { user_id: owner, data }),
        None => Err(Error::InvalidUserId(user_id)),
    }
}

/// Plans the replacement of a payload from the identity's text as already read.
pub fn update_for(id: Option<u128>, data: String) -> (r: Result<RowOp, Error>)
    ensures
        r == update_plan(id, data),
{
    match id {
        Some(id) => Ok(RowOp::Update { id, data }),
        None => Err(Error::NotFound),
    }
}

/// Plans the removal of a document from the identity's text as already read.
pub fn delete_for(id: Option<u128>) -> (r: Result<RowOp, Error>)
    ensures
        r == delete_plan(id),
{
    match id {
        Some(id) => Ok(RowOp::Delete { id }),
        None => Err(Error::NotFound),
    }
}

/// Plans the fetch of a document from the identity's text as already read.
pub fn get_for(id: Option<u128>) -> (r: Result<RowOp, Error>)
    ensures
        r == get_plan(id),
{
    match id {
        Some(id) => Ok(RowOp::Select { id }),
        None => Err(Error::NotFound),
    }
}

/// Plans a query at time `now` from the owner's text as already read.
pub fn query_for(query: DocumentQuery, owner: Option<u128>, now: Timestamp) -> (r: Result<RowOp, Error>)
    ensures
        r == query_plan(query, owner, now),
{
    match validate_range(query.start.as_ref(), query.end.as_ref()) {
        Err(e) => Err(e),
        Ok(()) => match owner {
            Some(owner) => Ok(
                RowOp::SelectRange { user_id: owner, window: resolve_window(query.start, query.end, now) },
            ),
            None => Err(Error::InvalidUserId(query.user_id)),
        },
    }
}

/// The row operation that creates a document of `user_id` with payload
/// `data`, or the refusal of an owner that is no identity.
pub fn create(user_id: String, data: String) -> (r: Result<RowOp, Error>)
    ensures
        r == create_plan(user_id, uuid_parsed(user_id@), data),
        user_id@.len() == 0 ==> r == Err::<RowOp, Error>(Error::InvalidUserId(user_id)),
{
    let owner = parse_id(user_id.as_str());
    create_for(user_id, owner, data)
}

/// The row operation that replaces the payload of document `id` with
/// `data`, or `NotFound` for an identity that names no document.
pub fn update(id: String, data: String) -> (r: Result<RowOp, Error>)
    ensures
        r == update_plan(uuid_parsed(id@), data),
{
    let parsed = parse_id(id.as_str());
    update_for(parsed, data)
}

/// The row operation that removes document `id`, or `NotFound` for an
/// identity that names no document.
pub fn delete(id: String) -> (r: Result<RowOp, Error>)
    ensures
        r == delete_plan(uuid_parsed(id@)),
{
    let parsed = parse_id(id.as_str());
    delete_for(parsed)
}

/// The row operation that fetches document `id`, or `NotFound` for an
/// identity that names no document.
pub fn get(id: String) -> (r: Result<RowOp, Error>)
    ensures
        r == get_plan(uuid_parsed(id@)),
{
    let parsed = parse_id(id.as_str());
    get_for(parsed)
}

/// The row operation that answers `query` at time `now`, or the refusal of
/// the query.
pub fn query_at(query: DocumentQuery, now: Timestamp) -> (r: Result<RowOp, Error>)
    ensures
        r == query_plan(query, uuid_parsed(query.user_id@), now),
        !range_ok(query.start, query.end) ==> r == Err::<RowOp, Error>(Error::InvalidTime),
{
    let owner = parse_id(query.user_id.as_str());
    query_for(query, owner, now)
}

/// The row operation that answers the query at the present moment, or the
/// refusal of the query. Whatever the clock reads, the result is the plan
/// for some `now`; a query with an end bound is planned without the clock.
pub fn query(descriptor: DocumentQuery) -> (r: Result<RowOp, Error>)
    ensures
        exists|now: Timestamp| r == query_plan(descriptor, uuid_parsed(descriptor.user_id@), now),
        descriptor.end is Some ==> r == query_plan(
            descriptor,
            uuid_parsed(descriptor.user_id@),
            Timestamp { seconds: 0, nanos: 0 },
        ),
        !range_ok(descriptor.start, descriptor.end) ==> r == Err::<RowOp, Error>(Error::InvalidTime),
{
    let owner = parse_id(descriptor.user_id.as_str());
    match validate_range(descriptor.start.as_ref(), descriptor.end.as_ref()) {
        Err(e) => {
            assert(Err::<RowOp, Error>(e) == query_plan(descriptor, owner, Timestamp { seconds: 0, nanos: 0 }));
            Err(e)
        },
        Ok(()) => match owner {
            Some(user_id) => {
                let window = resolve_window_now(descriptor.start, descriptor.end);
                let r = Ok(RowOp::SelectRange { user_id, window });
                proof {
                    let now = choose|now: Timestamp| window == resolved(descriptor.start, descriptor.end, now);
                    assert(r == query_plan(descriptor, owner, now));
                }
                r
            },
            None => {
                let r = Err(Error::InvalidUserId(descriptor.user_id));
                assert(r == query_plan(descriptor, owner, Timestamp { seconds: 0, nanos: 0 }));
                r
            },
        },
    }
}

/// What the answer to an insert means: the persisted row as a document, or
/// a store failure. An insert that returns no row has failed in the store.
pub open spec fn insert_result(outcome: StoreOutcome) -> Result<DocumentView, ErrorView> {
    match outcome {
        StoreOutcome::Row(row) => Ok(row@.document()),
        StoreOutcome::NoRow => Err(
            ErrorView::DbError("no rows returned by a query that expected to return at least one row"@),
        ),
        StoreOutcome::Failed(text) => Err(ErrorView::DbError(text@)),
    }
}

/// What the answer to an operation keyed by identity means: the row as a
/// document; `NotFound` where no row matched; a store failure otherwise.
pub open spec fn keyed_result(outcome: StoreOutcome) -> Result<DocumentView, ErrorView> {
    match outcome {
        StoreOutcome::Row(row) => Ok(row@.document()),
        StoreOutcome::NoRow => Err(ErrorView::NotFound),
        StoreOutcome::Failed(text) => Err(ErrorView::DbError(text@)),
    }
}

/// What one item of the store's cursor means: the row as a document, or a
/// store failure with the store's own account of it.
pub open spec fn cursor_result(item: Result<DocumentRow, String>) -> Result<DocumentView, ErrorView> {
    match item {
        Ok(row) => Ok(row@.document()),
        Err(text) => Err(ErrorView::DbError(text@)),
    }
}

/// The view of the result of an operation on one document.
pub open spec fn result_view(r: Result<Document, Error>) -> Result<DocumentView, ErrorView> {
    match r {
        Ok(doc) => Ok(doc@),
        Err(e) => Err(e@),
    }
}

/// Turns the store's answer to an insert into the result of `create`.
pub fn complete_insert(outcome: StoreOutcome) -> (r: Result<Document, Error>)
    ensures
        result_view(r) == insert_result(outcome),
{
    match outcome {
        StoreOutcome::Row(row) => Ok(Document::from_row(row)),
        StoreOutcome::NoRow => Err(
            Error::DbError(
                String::from_str("no rows returned by a query that expected to return at least one row"),
            ),
        ),
        StoreOutcome::Failed(text) => Err(Error::DbError(text)),
    }
}

/// Turns the store's answer to an update, a delete or a fetch by identity
/// into the result of the operation.
pub fn complete_keyed(outcome: StoreOutcome) -> (r: Result<Document, Error>)
    ensures
        result_view(r) == keyed_result(outcome),
{
    match outcome {
        StoreOutcome::Row(row) => Ok(Document::from_row(row)),
        StoreOutcome::NoRow => Err(Error::NotFound),
        StoreOutcome::Failed(text) => Err(Error::DbError(text)),
    }
}

/// Turns one item of the store's cursor into one item of the stream.
pub fn complete_streamed(item: Result<DocumentRow, String>) -> (r: Result<Document, Error>)
    ensures
        result_view(r) == cursor_result(item),
{
    match item {
        Ok(row) => Ok(Document::from_row(row)),
        Err(text) => Err(Error::DbError(text)),
    }
}

/// An operation keyed by an identity that matches no row fails as
/// `NotFound` and never as a store failure, whatever the identity's text:
/// a text that is no identity is refused as `NotFound` before the store is
/// asked, and a row that is missing is reported as `NotFound` after.
pub proof fn lemma_missing_is_not_found(id: Option<u128>, data: String)
    ensures
        id is None ==> update_plan(id, data) == Err::<RowOp, Error>(Error::NotFound),
        id is None ==> delete_plan(id) == Err::<RowOp, Error>(Error::NotFound),
        id is None ==> get_plan(id) == Err::<RowOp, Error>(Error::NotFound),
        keyed_result(StoreOutcome::NoRow) == Err::<DocumentView, ErrorView>(ErrorView::NotFound),
        !(keyed_result(StoreOutcome::NoRow) matches Err(ErrorView::DbError(_))),
{
}

/// A query whose bounds are both given with the start after the end is
/// refused as `InvalidTime` and plans no row operation, whoever the owner
/// and whatever the time.
pub proof fn lemma_bad_range_plans_nothing(query: DocumentQuery, owner: Option<u128>, now: Timestamp)
    requires
        query.start is Some,
        query.end is Some,
        query.start->0.instant() > query.end->0.instant(),
    ensures
        query_plan(query, owner, now) == Err::<RowOp, Error>(Error::InvalidTime),
{
}

} // verus!
