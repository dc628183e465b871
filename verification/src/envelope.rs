//! The request and response envelopes of the five operations. Each is a
//! thin carrier: a response wraps at most one document.

use crate::document::Document;
use crate::timestamp::Timestamp;
use vstd::prelude::*;

verus! {

/// Asks for the document with the given identity.
#[derive(Debug, Clone, PartialEq, Eq)]
pub struct GetRequest {
    pub id: String,
}

/// Carries the document that was asked for.
#[derive(Debug, Clone, PartialEq, Eq)]
pub struct GetResponse {
    pub document: Option<Document>,
}

/// Describes a query: the owner, and an optional window over the instant
/// of creation.
#[derive(Debug, Clone, PartialEq, Eq)]
pub struct DocumentQuery {
    pub user_id: String,
    pub start: Option<Timestamp>,
    pub end: Option<Timestamp>,
}

/// Asks for the documents that a descriptor selects.
#[derive(Debug, Clone, PartialEq, Eq)]
pub struct QueryRequest {
    pub query: Option<DocumentQuery>,
}

/// Asks for a new document of the given owner with the given payload.
#[derive(Debug, Clone, PartialEq, Eq)]
pub struct CreateRequest {
    pub user_id: String,
    pub data: Option<String>,
}

/// Carries the document as the store persisted it.
#[derive(Debug, Clone, PartialEq, Eq)]
pub struct CreateResponse {
    pub document: Option<Document>,
}

/// Asks to replace the payload of the document with the given identity.
#[derive(Debug, Clone, PartialEq, Eq)]
pub struct UpdateRequest {
    pub id: String,
    pub data: Option<String>,
}

/// Carries the document as it stands after the update.
#[derive(Debug, Clone, PartialEq, Eq)]
pub struct UpdateResponse {
    pub document: Option<Document>,
}

/// Asks to remove the document with the given identity.
#[derive(Debug, Clone, PartialEq, Eq)]
pub struct DeleteRequest {
    pub id: String,
}

/// Carries the last state of the removed document.
#[derive(Debug, Clone, PartialEq, Eq)]
pub struct DeleteResponse {
    pub document: Option<Document>,
}

} // verus!
