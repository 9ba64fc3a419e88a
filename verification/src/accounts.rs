//! Account records: refresh-token addresses, password-reset consumption, and the lease of
//! maintenance tasks.

use vstd::prelude::*;
use crate::error::{AppError, ErrorView, conflict, invariant_violation, not_found};
use crate::sql::Timestamp;
use crate::text::{concat3, strip_suffix_or_self, strip_suffix_or_self_exec};

verus! {

/// A stored client address as handed out: a single-host `/32` network suffix is dropped.
pub fn client_ip_address(ip: Option<String>) -> (r: Option<String>)
    ensures
        (match r {
            Some(s) => Some(s@),
            None => None::<Seq<char>>,
        }) == (match ip {
            Some(s) => Some(strip_suffix_or_self(s@, "/32"@)),
            None => None::<Seq<char>>,
        }),
{
    match ip {
        Some(s) => Some(strip_suffix_or_self_exec(s.as_str(), "/32")),
        None => None,
    }
}

/// The error for a reset token consumed before.
pub open spec fn token_already_used() -> ErrorView {
    ErrorView::Conflict { entity: "password_reset_token"@, message: "token already used"@ }
}

/// Settles the consumption of a password-reset token: consumed when the guarded update hit
/// it; otherwise a conflict when the token exists already used, else not found. `used_at`
/// is the answer of the follow-up lookup: absent when no token has that id.
pub fn reset_token_consumption(rows_affected: u64, used_at: Option<Option<Timestamp>>, id_text: String) -> (r: Result<(), AppError>)
    ensures
        r is Ok <==> rows_affected != 0,
        (rows_affected == 0 && (used_at matches Some(Some(_)))) ==> (r matches Err(e) && e@ == token_already_used()),
        (rows_affected == 0 && !(used_at matches Some(Some(_)))) ==> (r matches Err(e) && e@ == (ErrorView::NotFound {
            entity: "password_reset_token"@,
            id: id_text@,
        })),
{
    if rows_affected != 0 {
        return Ok(());
    }
    match used_at {
        Some(Some(_)) => Err(conflict("password_reset_token", "token already used")),
        _ => Err(not_found("password_reset_token", id_text)),
    }
}

/// The error for a maintenance task whose lease passed to another worker.
pub open spec fn lost_lease_error(task_name: Seq<char>) -> ErrorView {
    ErrorView::InvariantViolation {
        message: "maintenance task `"@ + task_name + "` lease is no longer owned"@,
    }
}

/// Settles a write guarded by a maintenance lease: it must touch exactly the task's row.
pub fn check_lease(rows_affected: u64, task_name: &str) -> (r: Result<(), AppError>)
    ensures
        r is Ok <==> rows_affected == 1,
        r matches Err(e) ==> e@ == lost_lease_error(task_name@),
{
    if rows_affected != 1 {
        return Err(invariant_violation(concat3("maintenance task `", task_name, "` lease is no longer owned")));
    }
    Ok(())
}

} // verus!
