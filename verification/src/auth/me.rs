//! The current user's account.
use vstd::prelude::*;
use crate::auth::utils::{bearer_user, extract_bearer};
use crate::flow::{Outcome, Request, Step};
use crate::http::StatusCode;

verus! {

/// The current user's id and name.
#[derive(Debug, PartialEq)]
pub struct MeResponse {
    pub id: i64,
    pub username: String,
}

/// The next step of the endpoint that shows the current user.
pub type MeStep = Step<Result<MeResponse, StatusCode>>;

/// The answer of the endpoint that shows the current user after the
/// transcript `t`: a refused token is answered `UNAUTHORIZED`, a failed
/// lookup of the name `INTERNAL_SERVER_ERROR`.
pub open spec fn me_answer(t: Seq<Outcome>) -> MeStep {
    if t.len() == 0 {
        Step::Perform(Request::Authenticate)
    } else {
        match t[0] {
            Outcome::Bearer { claims, now } => match bearer_user(claims, now) {
                Err(_) => Step::Respond(Err(StatusCode::UNAUTHORIZED)),
                Ok(user) => if t.len() <= 1 {
                    Step::Perform(Request::UsernameById { user_id: user })
                } else {
                    match t[1] {
                        Outcome::Username(Err(_)) => Step::Respond(Err(StatusCode::INTERNAL_SERVER_ERROR)),
                        Outcome::Username(Ok(name)) => Step::Respond(Ok(MeResponse { id: user, username: name })),
                        _ => Step::Unexpected,
                    }
                },
            },
            _ => Step::Unexpected,
        }
    }
}

/// Shows the authenticated user's id and name (see `me_answer`).
pub fn me(t: &[Outcome]) -> (r: MeStep)
    ensures
        r == me_answer(t@),
{
    if t.len() == 0 {
        return Step::Perform(Request::Authenticate);
    }
    match &t[0] {
        Outcome::Bearer { claims, now } => match extract_bearer(*claims, *now) {
            Err(_) => Step::Respond(Err(StatusCode::UNAUTHORIZED)),
            Ok(user) => if t.len() <= 1 {
                Step::Perform(Request::UsernameById { user_id: user })
            } else {
                match &t[1] {
                    Outcome::Username(Err(_)) => Step::Respond(Err(StatusCode::INTERNAL_SERVER_ERROR)),
                    Outcome::Username(Ok(name)) => Step::Respond(Ok(MeResponse { id: user, username: name.clone() })),
                    _ => Step::Unexpected,
                }
            },
        },
        _ => Step::Unexpected,
    }
}

} // verus!
