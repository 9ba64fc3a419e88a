//! Tag rules: the scope filter of the tag listing, the provenance codes of tag links, and
//! the checks of re-parenting and merging tags.

use vstd::prelude::*;
use crate::error::{AppError, ErrorView, validation, validation_view};
use crate::text::str_eq;

verus! {

/// The scope code of the tag listing: 1 keeps tags used on documents, 2 tags used on
/// highlights, 0 every tag.
pub open spec fn tag_scope_flag_spec(scope: Option<Seq<char>>) -> i32 {
    match scope {
        Some(s) => if s == "document"@ {
            1
        } else if s == "highlight"@ {
            2
        } else {
            0
        },
        None => 0,
    }
}

/// The scope code of the tag listing.
pub fn tag_scope_flag(scope: Option<&str>) -> (r: i32)
    ensures
        r == tag_scope_flag_spec(match scope {
            Some(s) => Some(s@),
            None => None::<Seq<char>>,
        }),
{
    match scope {
        Some(s) => if str_eq(s, "document") {
            1
        } else if str_eq(s, "highlight") {
            2
        } else {
            0
        },
        None => 0,
    }
}

/// Who attached a tag to a library entry.
#[derive(Clone, Copy, Debug, PartialEq, Eq, Structural)]
pub enum TagSource {
    Manual,
    Ai,
    Import,
}

/// The stored code of a tag link's provenance.
pub open spec fn tag_source_text(s: TagSource) -> Seq<char> {
    match s {
        TagSource::Manual => "manual"@,
        TagSource::Ai => "ai"@,
        TagSource::Import => "import"@,
    }
}

/// The stored code of a tag link's provenance.
pub fn tag_source_to_str(s: TagSource) -> (r: &'static str)
    ensures
        r@ == tag_source_text(s),
{
    match s {
        TagSource::Manual => "manual",
        TagSource::Ai => "ai",
        TagSource::Import => "import",
    }
}

/// The error for moving a tag under one of its own descendants.
pub open spec fn cyclic_parent_error() -> ErrorView {
    validation_view("parent_id"@, "a tag cannot be moved under one of its descendants"@)
}

/// Checks a re-parenting against the descendant query's answer (absent counts as no cycle).
pub fn check_parent_move(creates_cycle: Option<bool>) -> (r: Result<(), AppError>)
    ensures
        r is Ok <==> creates_cycle != Some(true),
        r matches Err(e) ==> e@ == cyclic_parent_error(),
{
    match creates_cycle {
        Some(true) => Err(validation("parent_id", "a tag cannot be moved under one of its descendants")),
        _ => Ok(()),
    }
}

/// The error for a merge naming source tags the user does not have.
pub open spec fn missing_merge_sources() -> ErrorView {
    validation_view("source_ids"@, "one or more source tags not found"@)
}

/// Checks that every requested source tag of a merge was found for the user.
pub fn check_merge_sources(found: Option<i64>, requested: usize) -> (r: Result<(), AppError>)
    requires
        requested <= i64::MAX,
    ensures
        r is Ok <==> (match found {
            Some(n) => n == requested,
            None => requested == 0,
        }),
        r matches Err(e) ==> e@ == missing_merge_sources(),
{
    let n = match found {
        Some(n) => n,
        None => 0,
    };
    if n != requested as i64 {
        return Err(validation("source_ids", "one or more source tags not found"));
    }
    Ok(())
}

} // verus!
