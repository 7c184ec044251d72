//! Answers to authentication failures and to missing board rights.
use vstd::prelude::*;
use crate::auth::utils::AuthError;
use crate::boards::role::BoardUserRole;
use crate::http::StatusCode;
use crate::text::owned;

verus! {

/// The answer to a refused bearer token.
pub open spec fn auth_failure(err: AuthError) -> (StatusCode, Seq<char>) {
    match err {
        AuthError::InvalidToken => (StatusCode::UNAUTHORIZED, "Invalid token"@),
        AuthError::ExpiredToken => (StatusCode::UNAUTHORIZED, "Expired token"@),
    }
}

/// The answer to a refused bearer token.
pub fn map_auth_error(err: AuthError) -> (r: (StatusCode, String))
    ensures
        (r.0, r.1@) == auth_failure(err),
{
    match err {
        AuthError::InvalidToken => (StatusCode::UNAUTHORIZED, owned("Invalid token")),
        AuthError::ExpiredToken => (StatusCode::UNAUTHORIZED, owned("Expired token")),
    }
}

/// Whether a user holding `role` on a board (`None`: not a member) may do
/// what needs `minimum_role`; a refusal carries its answer.  A member whose
/// role is too low gets `forbidden_msg`; a non-member is told that they have
/// no access to the board.
pub open spec fn role_check(role: Option<BoardUserRole>, minimum_role: BoardUserRole, forbidden_msg: Seq<char>) -> Result<(), (StatusCode, Seq<char>)> {
    match role {
        Some(r) => if r.spec_is_at_least(minimum_role) {
            Ok(())
        } else {
            Err((StatusCode::FORBIDDEN, forbidden_msg))
        },
        None => Err((StatusCode::FORBIDDEN, "No access to this board"@)),
    }
}

/// Whether `r` is the answer `v` of a role check.
pub open spec fn is_check_answer(r: Result<(), (StatusCode, String)>, v: Result<(), (StatusCode, Seq<char>)>) -> bool {
    match (r, v) {
        (Ok(()), Ok(())) => true,
        (Err((c, m)), Err((d, n))) => c == d && m@ == n,
        _ => false,
    }
}

/// Refuses a user whose role on the board is below `minimum_role`.
pub fn ensure_minimum_role(role: Option<BoardUserRole>, minimum_role: BoardUserRole, forbidden_msg: &str) -> (r: Result<(), (StatusCode, String)>)
    ensures
        is_check_answer(r, role_check(role, minimum_role, forbidden_msg@)),
{
    match role {
        Some(r) => if r.is_at_least(minimum_role) {
            Ok(())
        } else {
            Err((StatusCode::FORBIDDEN, owned(forbidden_msg)))
        },
        None => Err((StatusCode::FORBIDDEN, owned("No access to this board"))),
    }
}

/// The role check lets a member through exactly when their role is at least
/// the required one; whoever passes a check also passes every check that
/// requires less; owners pass every check; non-members pass none.
pub proof fn law_role_check(role: Option<BoardUserRole>, min: BoardUserRole, lower: BoardUserRole, forbidden: Seq<char>)
    ensures
        role_check(role, min, forbidden) is Ok <==> (role matches Some(r) && r.spec_is_at_least(min)),
        role_check(role, min, forbidden) is Ok && min.spec_is_at_least(lower) ==> role_check(role, lower, forbidden) is Ok,
        role_check(Some(BoardUserRole::Owner), min, forbidden) is Ok,
        role_check(None, min, forbidden) == Err::<(), (StatusCode, Seq<char>)>((StatusCode::FORBIDDEN, "No access to this board"@)),
{
}

} // verus!
