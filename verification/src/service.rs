//! The request facade: presence checks on the envelopes, the row operation
//! that each request leads to, and the response or status that each
//! answer of the store becomes.

use crate::document::{Document, DocumentView};
use crate::envelope::{
    CreateRequest, CreateResponse, DeleteRequest, DeleteResponse, GetRequest, GetResponse, QueryRequest,
    UpdateRequest, UpdateResponse,
};
use crate::error::{Code, Error, ErrorView, Status, StatusView};
use crate::ident::uuid_parsed;
use crate::manager::{
    complete_insert, complete_keyed, create, create_plan, delete, delete_plan, get, get_plan, insert_result,
    keyed_result, query, query_at, query_plan, update, update_plan, RowOp, StoreOutcome,
};
use crate::timestamp::Timestamp;
use vstd::prelude::*;

verus! {

/// The status of a create or update request without a payload.
pub open spec fn missing_data() -> StatusView {
    StatusView { code: Code::InvalidArgument, message: "missing data"@ }
}

/// The status of a query request without a descriptor.
pub open spec fn missing_query() -> StatusView {
    StatusView { code: Code::InvalidArgument, message: "missing query"@ }
}

/// A result with its status as a view.
pub open spec fn status_view<T>(r: Result<T, Status>) -> Result<T, StatusView> {
    match r {
        Ok(value) => Ok(value),
        Err(status) => Err(status@),
    }
}

/// A plan with its refusal mapped to the status it reaches the caller as.
pub open spec fn refused(plan: Result<RowOp, Error>) -> Result<RowOp, StatusView> {
    match plan {
        Ok(op) => Ok(op),
        Err(e) => Err(e@.status()),
    }
}

/// Whether `answer`, the document of a response or the status in its
/// place, is what `result` calls for: the document on success, the status
/// of the failure otherwise.
pub open spec fn answers(answer: Result<Option<Document>, Status>, result: Result<DocumentView, ErrorView>) -> bool {
    match result {
        Ok(doc) => answer matches Ok(Some(d)) && d@ == doc,
        Err(e) => answer matches Err(status) && status@ == e.status(),
    }
}

/// Maps the refusal of a plan to its status.
fn plan_or_status(plan: Result<RowOp, Error>) -> (r: Result<RowOp, Status>)
    ensures
        status_view(r) == refused(plan),
{
    match plan {
        Ok(op) => Ok(op),
        Err(e) => Err(Status::from(e)),
    }
}

/// Takes in a create request: a request without a payload is refused as a
/// client error before anything is asked of the store; any other leads to
/// the row operation of `create` or to the status of its refusal.
pub fn begin_create(request: CreateRequest) -> (r: Result<RowOp, Status>)
    ensures
        match request.data {
            Some(data) => status_view(r) == refused(
                create_plan(request.user_id, uuid_parsed(request.user_id@), data),
            ),
            None => status_view(r) == Err::<RowOp, StatusView>(missing_data()),
        },
{
    match request.data {
        Some(data) => plan_or_status(create(request.user_id, data)),
        None => Err(Status::invalid_argument("missing data")),
    }
}

/// Takes in an update request: a request without a payload is refused as
/// a client error before anything is asked of the store; any other leads
/// to the row operation of `update` or to the status of its refusal.
pub fn begin_update(request: UpdateRequest) -> (r: Result<RowOp, Status>)
    ensures
        match request.data {
            Some(data) => status_view(r) == refused(update_plan(uuid_parsed(request.id@), data)),
            None => status_view(r) == Err::<RowOp, StatusView>(missing_data()),
        },
{
    match request.data {
        Some(data) => plan_or_status(update(request.id, data)),
        None => Err(Status::invalid_argument("missing data")),
    }
}

/// Takes in a delete request.
pub fn begin_delete(request: DeleteRequest) -> (r: Result<RowOp, Status>)
    ensures
        status_view(r) == refused(delete_plan(uuid_parsed(request.id@))),
{
    plan_or_status(delete(request.id))
}

/// Takes in a get request.
pub fn begin_get(request: GetRequest) -> (r: Result<RowOp, Status>)
    ensures
        status_view(r) == refused(get_plan(uuid_parsed(request.id@))),
{
    plan_or_status(get(request.id))
}

/// Takes in a query request at time `now`: a request without a descriptor
/// is refused as a client error before anything is asked of the store;
/// any other leads to the range selection of `query_at` or to the status
/// of its refusal.
pub fn begin_query_at(request: QueryRequest, now: Timestamp) -> (r: Result<RowOp, Status>)
    ensures
        match request.query {
            Some(descriptor) => status_view(r) == refused(
                query_plan(descriptor, uuid_parsed(descriptor.user_id@), now),
            ),
            None => status_view(r) == Err::<RowOp, StatusView>(missing_query()),
        },
{
    match request.query {
        Some(descriptor) => plan_or_status(query_at(descriptor, now)),
        None => Err(Status::invalid_argument("missing query")),
    }
}

/// Takes in a query request at the present moment. Whatever the clock
/// reads, the result is that of [`begin_query_at`] for some `now`.
pub fn begin_query(request: QueryRequest) -> (r: Result<RowOp, Status>)
    ensures
        match request.query {
            Some(descriptor) => exists|now: Timestamp|
                status_view(r) == refused(
                    #[trigger] query_plan(descriptor, uuid_parsed(descriptor.user_id@), now),
                ),
            None => status_view(r) == Err::<RowOp, StatusView>(missing_query()),
        },
{
    match request.query {
        Some(descriptor) => {
            let plan = query(descriptor);
            proof {
                let now = choose|now: Timestamp|
                    plan == query_plan(descriptor, uuid_parsed(descriptor.user_id@), now);
                assert(plan == query_plan(descriptor, uuid_parsed(descriptor.user_id@), now));
            }
            plan_or_status(plan)
        },
        None => Err(Status::invalid_argument("missing query")),
    }
}

/// The document of a create response, or the status in its place.
pub open spec fn create_answer(r: Result<CreateResponse, Status>) -> Result<Option<Document>, Status> {
    match r {
        Ok(response) => Ok(response.document),
        Err(status) => Err(status),
    }
}

/// The document of a update response, or the status in its place.
pub open spec fn update_answer(r: Result<UpdateResponse, Status>) -> Result<Option<Document>, Status> {
    match r {
        Ok(response) => Ok(response.document),
        Err(status) => Err(status),
    }
}

/// The document of a delete response, or the status in its place.
pub open spec fn delete_answer(r: Result<DeleteResponse, Status>) -> Result<Option<Document>, Status> {
    match r {
        Ok(response) => Ok(response.document),
        Err(status) => Err(status),
    }
}

/// The document of a get response, or the status in its place.
pub open spec fn get_answer(r: Result<GetResponse, Status>) -> Result<Option<Document>, Status> {
    match r {
        Ok(response) => Ok(response.document),
        Err(status) => Err(status),
    }
}

/// Wraps the store's answer to an insert in the response to a create
/// request, or maps its failure to a status.
pub fn finish_create(outcome: StoreOutcome) -> (r: Result<CreateResponse, Status>)
    ensures
        answers(create_answer(r), insert_result(outcome)),
{
    match complete_insert(outcome) {
        Ok(document) => Ok(CreateResponse { document: Some(document) }),
        Err(e) => Err(Status::from(e)),
    }
}

/// Wraps the store's answer to an update in the response, or maps its
/// failure to a status.
pub fn finish_update(outcome: StoreOutcome) -> (r: Result<UpdateResponse, Status>)
    ensures
        answers(update_answer(r), keyed_result(outcome)),
{
    match complete_keyed(outcome) {
        Ok(document) => Ok(UpdateResponse { document: Some(document) }),
        Err(e) => Err(Status::from(e)),
    }
}

/// Wraps the store's answer to a delete in the response, or maps its
/// failure to a status.
pub fn finish_delete(outcome: StoreOutcome) -> (r: Result<DeleteResponse, Status>)
    ensures
        answers(delete_answer(r), keyed_result(outcome)),
{
    match complete_keyed(outcome) {
        Ok(document) => Ok(DeleteResponse { document: Some(document) }),
        Err(e) => Err(Status::from(e)),
    }
}

/// Wraps the store's answer to a fetch in the response, or maps its
/// failure to a status.
pub fn finish_get(outcome: StoreOutcome) -> (r: Result<GetResponse, Status>)
    ensures
        answers(get_answer(r), keyed_result(outcome)),
{
    match complete_keyed(outcome) {
        Ok(document) => Ok(GetResponse { document: Some(document) }),
        Err(e) => Err(Status::from(e)),
    }
}

/// Hands one item of a stream on to the transport: a document as it is, a
/// failure as the status it maps to.
pub fn stream_item<T>(item: Result<T, Error>) -> (r: Result<T, Status>)
    ensures
        match item {
            Ok(value) => r == Ok::<T, Status>(value),
            Err(e) => r matches Err(status) && status@ == e@.status(),
        },
{
    match item {
        Ok(value) => Ok(value),
        Err(e) => Err(Status::from(e)),
    }
}

} // verus!
