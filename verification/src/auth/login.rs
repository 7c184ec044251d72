//! Logging in: checking credentials and issuing a session token.
use vstd::prelude::*;
use crate::auth::utils::{bearer_user, AuthError, LoginRequest};
use crate::flow::{Outcome, Request, Step};
use crate::http::StatusCode;
use crate::text::owned;

verus! {

/// The claims a session token carries.
#[derive(Clone, Copy, Debug, PartialEq, Eq, Structural)]
pub struct Claims {
    /// The user id.
    pub sub: i64,
    /// The expiration time, in seconds since the Unix epoch.
    pub exp: usize,
}

/// How long a session token stays valid, in seconds.
pub const TOKEN_LIFETIME: i64 = 3600;

/// The body of a login answer.
#[derive(Debug, PartialEq)]
pub enum LoginResponse {
    Token(String),
    Error(String),
}

/// The body of a login answer, with texts seen as sequences.
pub enum LoginAnswer {
    Token(Seq<char>),
    Error(Seq<char>),
}

impl View for LoginResponse {
    type V = LoginAnswer;

    open spec fn view(&self) -> LoginAnswer {
        match self {
            LoginResponse::Token(t) => LoginAnswer::Token(t@),
            LoginResponse::Error(e) => LoginAnswer::Error(e@),
        }
    }
}

/// The next step of the login endpoint.
pub type LoginStep = Step<(StatusCode, LoginResponse)>;

/// The next step of the login endpoint, with texts seen as sequences.
pub type LoginStepView = Step<(StatusCode, LoginAnswer)>;

impl View for Step<(StatusCode, LoginResponse)> {
    type V = LoginStepView;

    open spec fn view(&self) -> LoginStepView {
        match self {
            Step::Perform(r) => Step::Perform(*r),
            Step::Respond((code, body)) => Step::Respond((*code, body@)),
            Step::Unexpected => Step::Unexpected,
        }
    }
}

/// The claims of a token issued at time `now` to `user`.
pub open spec fn session_claims(user: i64, now: i64) -> Claims {
    Claims { sub: user, exp: (now + TOKEN_LIFETIME) as usize }
}

/// The claims of a token issued at time `now` to `user`: it expires an
/// hour later.
pub fn claims_for(user: i64, now: i64) -> (c: Claims)
    requires
        now + TOKEN_LIFETIME <= i64::MAX,
    ensures
        c == session_claims(user, now),
{
    let exp: i64 = now + TOKEN_LIFETIME;
    Claims { sub: user, exp: exp as usize }
}

/// Whether the transcript of a login holds a clock reading whose token
/// lifetime would not fit in an `i64`.
pub open spec fn clock_overflows(t: Seq<Outcome>) -> bool {
    &&& t.len() > 2
    &&& t[2] matches Outcome::Clock(now)
    &&& now + TOKEN_LIFETIME > i64::MAX
}

/// A refusal of a login.
pub open spec fn login_error(code: StatusCode, msg: Seq<char>) -> LoginStepView {
    Step::Respond((code, LoginAnswer::Error(msg)))
}

/// The answer of the login endpoint after the transcript `t`: the account
/// is looked up by name, the credentials are checked, the clock is read,
/// the signing secret is read and a token for an hour is issued.
pub open spec fn login_answer(p: LoginRequest, t: Seq<Outcome>) -> LoginStepView {
    if t.len() == 0 {
        Step::Perform(Request::FindUser { username: p.username })
    } else {
        match t[0] {
            Outcome::UserFound(Err(_)) => login_error(StatusCode::NOT_FOUND, "User does not exist"@),
            Outcome::UserFound(Ok(user)) => if t.len() <= 1 {
                Step::Perform(Request::ValidateCredentials { username: p.username, password: p.password })
            } else {
                match t[1] {
                    Outcome::Validated(Ok(true)) => if t.len() <= 2 {
                        Step::Perform(Request::ReadClock)
                    } else {
                        match t[2] {
                            Outcome::Clock(now) => if t.len() <= 3 {
                                Step::Perform(Request::ReadSecret)
                            } else {
                                match t[3] {
                                    Outcome::Secret(None) => login_error(StatusCode::INTERNAL_SERVER_ERROR, "Server configuration error"@),
                                    Outcome::Secret(Some(secret)) => if t.len() <= 4 {
                                        Step::Perform(Request::IssueToken { claims: session_claims(user, now), secret })
                                    } else {
                                        match t[4] {
                                            Outcome::Token(None) => login_error(StatusCode::INTERNAL_SERVER_ERROR, "Failed to create token"@),
                                            Outcome::Token(Some(token)) => Step::Respond((StatusCode::OK, LoginAnswer::Token(token@))),
                                            _ => Step::Unexpected,
                                        }
                                    },
                                    _ => Step::Unexpected,
                                }
                            },
                            _ => Step::Unexpected,
                        }
                    },
                    Outcome::Validated(Ok(false)) => login_error(StatusCode::UNAUTHORIZED, "Invalid credentials"@),
                    Outcome::Validated(Err(_)) => login_error(StatusCode::INTERNAL_SERVER_ERROR, "Error validating user"@),
                    _ => Step::Unexpected,
                }
            },
            _ => Step::Unexpected,
        }
    }
}

fn login_refusal(code: StatusCode, msg: &str) -> (s: LoginStep)
    ensures
        s@ == login_error(code, msg@),
{
    Step::Respond((code, LoginResponse::Error(owned(msg))))
}

/// The login endpoint (see `login_answer`).  A clock reading so large that
/// the token's expiration overflows is not accepted.
pub fn login(payload: &LoginRequest, t: &[Outcome]) -> (r: LoginStep)
    requires
        !clock_overflows(t@),
    ensures
        r@ == login_answer(*payload, t@),
{
    if t.len() == 0 {
        return Step::Perform(Request::FindUser { username: payload.username.clone() });
    }
    let user = match &t[0] {
        Outcome::UserFound(Err(_)) => return login_refusal(StatusCode::NOT_FOUND, "User does not exist"),
        Outcome::UserFound(Ok(user)) => *user,
        _ => return Step::Unexpected,
    };
    if t.len() <= 1 {
        return Step::Perform(Request::ValidateCredentials {
            username: payload.username.clone(),
            password: payload.password.clone(),
        });
    }
    match &t[1] {
        Outcome::Validated(Ok(true)) => {},
        Outcome::Validated(Ok(false)) => return login_refusal(StatusCode::UNAUTHORIZED, "Invalid credentials"),
        Outcome::Validated(Err(_)) => return login_refusal(StatusCode::INTERNAL_SERVER_ERROR, "Error validating user"),
        _ => return Step::Unexpected,
    }
    if t.len() <= 2 {
        return Step::Perform(Request::ReadClock);
    }
    let now = match &t[2] {
        Outcome::Clock(now) => *now,
        _ => return Step::Unexpected,
    };
    if t.len() <= 3 {
        return Step::Perform(Request::ReadSecret);
    }
    let secret = match &t[3] {
        Outcome::Secret(None) => return login_refusal(StatusCode::INTERNAL_SERVER_ERROR, "Server configuration error"),
        Outcome::Secret(Some(secret)) => secret,
        _ => return Step::Unexpected,
    };
    if t.len() <= 4 {
        let claims = claims_for(user, now);
        return Step::Perform(Request::IssueToken { claims, secret: secret.clone() });
    }
    match &t[4] {
        Outcome::Token(None) => login_refusal(StatusCode::INTERNAL_SERVER_ERROR, "Failed to create token"),
        Outcome::Token(Some(token)) => Step::Respond((StatusCode::OK, LoginResponse::Token(token.clone()))),
        _ => Step::Unexpected,
    }
}

/// A token issued at login at time `now` is accepted by the bearer check for
/// its user until an hour has passed, and refused as expired after that
/// (for times that are not negative and fit in a `usize`).
pub proof fn law_token_lifetime(user: i64, now: i64, later: i64)
    requires
        0 <= now <= later <= usize::MAX,
        now + TOKEN_LIFETIME <= i64::MAX,
        now + TOKEN_LIFETIME <= usize::MAX,
    ensures
        later <= now + TOKEN_LIFETIME ==> bearer_user(Some(session_claims(user, now)), later) == Ok::<i64, AuthError>(user),
        later > now + TOKEN_LIFETIME ==> bearer_user(Some(session_claims(user, now)), later)
            == Err::<i64, AuthError>(AuthError::ExpiredToken),
{
}

/// Login issues a token only after the credentials were found valid, and
/// the token is for the account that was looked up by the given name and
/// lasts an hour from the clock reading; login answers `OK` exactly when it
/// answers with a token, and only after the account was found and the
/// credential check said yes; wrong credentials are answered `UNAUTHORIZED`.
pub proof fn law_login(p: LoginRequest, t: Seq<Outcome>)
    ensures
        login_answer(p, t) matches Step::Respond((code, body))
            ==> (code == StatusCode::OK <==> body is Token),
        login_answer(p, t) matches Step::Respond((_, LoginAnswer::Token(_))) ==> {
            &&& t[0] matches Outcome::UserFound(Ok(_))
            &&& t[1] == Outcome::Validated(Ok(true))
            &&& t[4] matches Outcome::Token(Some(_))
        },
        login_answer(p, t) matches Step::Perform(Request::IssueToken { claims, .. }) ==> {
            &&& t[0] == Outcome::UserFound(Ok(claims.sub))
            &&& t[1] == Outcome::Validated(Ok(true))
            &&& t[2] matches Outcome::Clock(now)
            &&& claims == session_claims(claims.sub, now)
        },
        login_answer(p, t) matches Step::Respond((StatusCode::OK, _)) ==> t[1] == Outcome::Validated(Ok(true)),
        login_answer(p, t) matches Step::Perform(Request::ValidateCredentials { username, password })
            ==> username == p.username && password == p.password,
        t.len() >= 2 && t[0] is UserFound && t[0]->UserFound_0 is Ok && t[1] == Outcome::Validated(Ok(false))
            ==> login_answer(p, t) == login_error(StatusCode::UNAUTHORIZED, "Invalid credentials"@),
{
}

} // verus!
