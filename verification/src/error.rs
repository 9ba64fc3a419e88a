//! The error values the repositories hand back to the application layer.

use vstd::prelude::*;

verus! {

/// An error raised by the library, in the shape of the application's domain errors.
#[derive(Clone, Debug, PartialEq, Eq)]
pub enum AppError {
    /// Input rejected by a validation rule.
    Validation { field: String, message: String },
    /// A stored value that breaks an invariant of the domain (an unknown enum text, say).
    InvariantViolation { message: String },
    /// The addressed row does not exist for this caller.
    NotFound { entity: String, id: String },
    /// The write lost a race or conflicts with the stored state.
    Conflict { entity: String, message: String },
}

/// The mathematical value of an [`AppError`]: its texts as character sequences.
pub enum ErrorView {
    Validation { field: Seq<char>, message: Seq<char> },
    InvariantViolation { message: Seq<char> },
    NotFound { entity: Seq<char>, id: Seq<char> },
    Conflict { entity: Seq<char>, message: Seq<char> },
}

impl View for AppError {
    type V = ErrorView;

    open spec fn view(&self) -> ErrorView {
        match self {
            AppError::Validation { field, message } => ErrorView::Validation {
                field: field@,
                message: message@,
            },
            AppError::InvariantViolation { message } => ErrorView::InvariantViolation {
                message: message@,
            },
            AppError::NotFound { entity, id } => ErrorView::NotFound { entity: entity@, id: id@ },
            AppError::Conflict { entity, message } => ErrorView::Conflict {
                entity: entity@,
                message: message@,
            },
        }
    }
}

/// The view of a validation error on `field` with `message`.
pub open spec fn validation_view(field: Seq<char>, message: Seq<char>) -> ErrorView {
    ErrorView::Validation { field, message }
}

/// Builds a validation error from two texts.
pub fn validation(field: &str, message: &str) -> (e: AppError)
    ensures
        e@ == validation_view(field@, message@),
{
    AppError::Validation { field: field.to_string(), message: message.to_string() }
}

/// Builds an invariant-violation error.
pub fn invariant_violation(message: String) -> (e: AppError)
    ensures
        e@ == (ErrorView::InvariantViolation { message: message@ }),
{
    AppError::InvariantViolation { message }
}

/// Builds a not-found error.
pub fn not_found(entity: &str, id: String) -> (e: AppError)
    ensures
        e@ == (ErrorView::NotFound { entity: entity@, id: id@ }),
{
    AppError::NotFound { entity: entity.to_string(), id }
}

/// Builds a conflict error.
pub fn conflict(entity: &str, message: &str) -> (e: AppError)
    ensures
        e@ == (ErrorView::Conflict { entity: entity@, message: message@ }),
{
    AppError::Conflict { entity: entity.to_string(), message: message.to_string() }
}

/// Settles a write addressed to one row: touching no row means the row does not exist
/// (for this caller), which is reported as not found.
pub fn require_affected(rows_affected: u64, entity: &str, id: String) -> (r: Result<(), AppError>)
    ensures
        r is Ok <==> rows_affected != 0,
        r matches Err(e) ==> e@ == (ErrorView::NotFound { entity: entity@, id: id@ }),
{
    if rows_affected == 0 {
        Err(not_found(entity, id))
    } else {
        Ok(())
    }
}

} // verus!
