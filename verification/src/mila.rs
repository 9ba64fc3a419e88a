//! The scope rules of Mila chat sessions.

use vstd::prelude::*;
use crate::codecs::MilaSessionType;
use crate::error::{AppError, ErrorView, validation, validation_view};

verus! {

/// What a session is about: its type and the document or collection it is scoped to.
pub struct MilaSessionScope {
    pub session_type: MilaSessionType,
    pub document_id: Option<u128>,
    pub collection_id: Option<u128>,
}

/// A consistent scope: a single-document session names a document and no collection, a
/// cross-item session names neither, a collection session names a collection and no document.
pub open spec fn scope_consistent(s: MilaSessionScope) -> bool {
    match s.session_type {
        MilaSessionType::SingleDocument => s.document_id is Some && s.collection_id is None,
        MilaSessionType::CrossItem => s.document_id is None && s.collection_id is None,
        MilaSessionType::Collection => s.document_id is None && s.collection_id is Some,
    }
}

/// The error a scope is refused with, in the order the rules are checked; none for a
/// consistent scope.
pub open spec fn scope_error(s: MilaSessionScope) -> Option<ErrorView> {
    if s.session_type != MilaSessionType::SingleDocument && s.document_id is Some {
        Some(validation_view("document_id"@, "document_id is only valid for single_document sessions"@))
    } else {
        match s.session_type {
            MilaSessionType::SingleDocument => if s.document_id is None {
                Some(validation_view("document_id"@, "single_document sessions require document_id"@))
            } else if s.collection_id is Some {
                Some(validation_view("document_id"@, "single_document sessions cannot include collection_id"@))
            } else {
                None
            },
            MilaSessionType::CrossItem => if s.collection_id is Some {
                Some(validation_view("collection_id"@, "cross_item sessions cannot include collection_id"@))
            } else {
                None
            },
            MilaSessionType::Collection => if s.collection_id is None {
                Some(validation_view("collection_id"@, "collection sessions require collection_id"@))
            } else {
                None
            },
        }
    }
}

/// Refuses a session whose scope contradicts its type, with the first rule it breaks.
pub fn validate_session_scope(session: &MilaSessionScope) -> (r: Result<(), AppError>)
    ensures
        r is Ok <==> scope_consistent(*session),
        r is Ok <==> scope_error(*session) is None,
        r matches Err(e) ==> scope_error(*session) == Some(e@),
{
    let single = match session.session_type {
        MilaSessionType::SingleDocument => true,
        _ => false,
    };
    if !single && session.document_id.is_some() {
        return Err(validation("document_id", "document_id is only valid for single_document sessions"));
    }
    match session.session_type {
        MilaSessionType::SingleDocument => {
            if session.document_id.is_none() {
                return Err(validation("document_id", "single_document sessions require document_id"));
            }
            if session.collection_id.is_some() {
                return Err(validation("document_id", "single_document sessions cannot include collection_id"));
            }
        },
        MilaSessionType::CrossItem => {
            if session.collection_id.is_some() {
                return Err(validation("collection_id", "cross_item sessions cannot include collection_id"));
            }
        },
        MilaSessionType::Collection => {
            if session.collection_id.is_none() {
                return Err(validation("collection_id", "collection sessions require collection_id"));
            }
            if session.document_id.is_some() {
                return Err(validation("document_id", "collection sessions cannot include document_id"));
            }
        },
    }
    Ok(())
}

} // verus!
