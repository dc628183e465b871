//! The document: the persisted entity and its validation rule.

use crate::error::{Error, ErrorView};
use crate::ident::{format_id, uuid_parsed, uuid_text};
use crate::timestamp::{range_ok, validate_range, Timestamp};
use vstd::prelude::*;

verus! {

/// Text of a document's identity.
pub type DocumentId = String;

/// Text of an owner's identity.
pub type UserId = String;

/// A structure that can tell whether it is valid.
pub trait Validator {
    /// The failure that validation reports, if any.
    spec fn fault(&self) -> Option<ErrorView>;

    /// Checks the structure and reports the first rule it breaks.
    fn validate(&self) -> (r: Result<(), Error>)
        ensures
            r is Ok <==> self.fault() is None,
            r matches Err(e) ==> self.fault() == Some(e@),
    ;
}

/// The persisted entity: its identity, its owner, an opaque structured
/// payload in its JSON text, and the instants of creation and last update.
#[derive(Debug, Clone, PartialEq, Eq)]
pub struct Document {
    pub id: DocumentId,
    pub user_id: UserId,
    pub data: Option<String>,
    pub created_at: Option<Timestamp>,
    pub updated_at: Option<Timestamp>,
}

/// A [`Document`] with its texts as sequences of characters.
pub struct DocumentView {
    pub id: Seq<char>,
    pub user_id: Seq<char>,
    pub data: Option<Seq<char>>,
    pub created_at: Option<Timestamp>,
    pub updated_at: Option<Timestamp>,
}

/// The characters of an optional text.
pub open spec fn text_view(text: Option<String>) -> Option<Seq<char>> {
    match text {
        Some(t) => Some(t@),
        None => None,
    }
}

impl View for Document {
    type V = DocumentView;

    open spec fn view(&self) -> DocumentView {
        DocumentView {
            id: self.id@,
            user_id: self.user_id@,
            data: text_view(self.data),
            created_at: self.created_at,
            updated_at: self.updated_at,
        }
    }
}

impl DocumentView {
    /// The failure that validation reports for this document, if any: a
    /// missing owner first, then creation and update instants that
    /// contradict the range rule.
    pub open spec fn fault(self) -> Option<ErrorView> {
        if self.user_id.len() == 0 {
            Some(ErrorView::InvalidUserId(self.user_id))
        } else if !range_ok(self.created_at, self.updated_at) {
            Some(ErrorView::InvalidTime)
        } else {
            None
        }
    }

    /// Whether the document is one that the store holds: identity and
    /// owner present, a payload, both instants, creation not after update.
    pub open spec fn persisted(self) -> bool {
        &&& self.id.len() > 0
        &&& self.user_id.len() > 0
        &&& self.data is Some
        &&& self.created_at is Some
        &&& self.updated_at is Some
        &&& self.created_at->0.instant() <= self.updated_at->0.instant()
    }
}

impl Validator for Document {
    open spec fn fault(&self) -> Option<ErrorView> {
        self@.fault()
    }

    fn validate(&self) -> (r: Result<(), Error>) {
        if self.user_id.as_str().unicode_len() == 0 {
            return Err(Error::InvalidUserId(self.user_id.clone()));
        }
        match validate_range(self.created_at.as_ref(), self.updated_at.as_ref()) {
            Ok(()) => Ok(()),
            Err(e) => Err(e),
        }
    }
}

/// One row of the store: identity and owner by value, the payload in its
/// JSON text, and the two instants that the store assigned.
#[derive(Debug, Clone, PartialEq, Eq)]
pub struct DocumentRow {
    pub id: u128,
    pub user_id: u128,
    pub data: String,
    pub created_at: Timestamp,
    pub updated_at: Timestamp,
}

/// A [`DocumentRow`] with its payload as a sequence of characters.
pub struct DocumentRowView {
    pub id: u128,
    pub user_id: u128,
    pub data: Seq<char>,
    pub created_at: Timestamp,
    pub updated_at: Timestamp,
}

impl View for DocumentRow {
    type V = DocumentRowView;

    open spec fn view(&self) -> DocumentRowView {
        DocumentRowView {
            id: self.id,
            user_id: self.user_id,
            data: self.data@,
            created_at: self.created_at,
            updated_at: self.updated_at,
        }
    }
}

impl DocumentRowView {
    /// The document that this row is read as.
    pub open spec fn document(self) -> DocumentView {
        DocumentView {
            id: uuid_text(self.id),
            user_id: uuid_text(self.user_id),
            data: Some(self.data),
            created_at: Some(self.created_at),
            updated_at: Some(self.updated_at),
        }
    }
}

impl Document {
    /// A document as the store holds one: identity and owner in their
    /// text, a payload, and both instants.
    pub fn new(id: DocumentId, user_id: UserId, data: String, created_at: Timestamp, updated_at: Timestamp) -> (doc:
        Document)
        ensures
            doc == (Document {
                id,
                user_id,
                data: Some(data),
                created_at: Some(created_at),
                updated_at: Some(updated_at),
            }),
    {
        Document { id, user_id, data: Some(data), created_at: Some(created_at), updated_at: Some(updated_at) }
    }

    /// Reads a row of the store as a document: identity and owner in their
    /// text, the payload and both instants present. Neither text is empty,
    /// and each reads back as the identity it was written from.
    pub fn from_row(row: DocumentRow) -> (doc: Document)
        ensures
            doc@ == row@.document(),
            doc@.id.len() > 0,
            doc@.user_id.len() > 0,
            uuid_parsed(doc@.id) == Some(row.id),
            uuid_parsed(doc@.user_id) == Some(row.user_id),
    {
        Document::new(format_id(row.id), format_id(row.user_id), row.data, row.created_at, row.updated_at)
    }
}

/// A document read from a row whose creation is not after its update is a
/// persisted one, and validation finds no fault in it.
pub proof fn lemma_row_document_valid(row: DocumentRowView)
    requires
        row.created_at.instant() <= row.updated_at.instant(),
        uuid_text(row.id).len() > 0,
        uuid_text(row.user_id).len() > 0,
    ensures
        row.document().persisted(),
        row.document().fault() is None,
{
}

} // verus!
