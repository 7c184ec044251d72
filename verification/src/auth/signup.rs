//! Creating an account.
use vstd::prelude::*;
use crate::auth::login::{login_answer, session_claims, LoginAnswer, LoginStepView};
use crate::auth::utils::{
    default_encoding_head, hash_password_with_salt, hashed_password, is_validation, password_accepted,
    username_exists, username_taken, validation, LoginRequest,
};
use crate::flow::{Outcome, Request, Step};
use crate::http::StatusCode;
use crate::text::owned;

verus! {

/// The next step of the signup endpoint.
pub type SignupStep = Step<(StatusCode, String)>;

/// Whether counting the accounts with the name answered that the name is
/// taken; a failed count counts as taken.
pub open spec fn name_taken(count: Result<i64, crate::boards::utils::DbError>) -> bool {
    match username_taken(count) {
        Ok(taken) => taken,
        Err(_) => true,
    }
}

/// Whether `s` answers with this status and message.
pub open spec fn answers_with(s: SignupStep, code: StatusCode, msg: Seq<char>) -> bool {
    s matches Step::Respond((c, m)) && c == code && m@ == msg
}

/// Whether `s` is the step of the signup endpoint after the transcript `t`,
/// when passwords are salted with `salt`: the name must be free, the
/// password is hashed, and the account is stored with the hash.
pub open spec fn signup_answers(p: LoginRequest, t: Seq<Outcome>, salt: Seq<u8>, s: SignupStep) -> bool {
    if t.len() == 0 {
        s == Step::<(StatusCode, String)>::Perform(Request::CountUsername { username: p.username })
    } else {
        match t[0] {
            Outcome::UsernameCount(count) => if name_taken(count) {
                answers_with(s, StatusCode::CONFLICT, "Username already exists"@)
            } else if t.len() <= 1 {
                match hashed_password(p.password@, salt) {
                    Err(_) => answers_with(s, StatusCode::INTERNAL_SERVER_ERROR, "Failed to hash password"@),
                    Ok(hash) => s matches Step::Perform(Request::InsertUser { username, password_hash })
                        && username == p.username && password_hash@ == hash,
                }
            } else {
                match t[1] {
                    Outcome::Done(Ok(())) => answers_with(s, StatusCode::CREATED, "User created successfully"@),
                    Outcome::Done(Err(_)) => answers_with(s, StatusCode::INTERNAL_SERVER_ERROR, "Failed to create user"@),
                    _ => s is Unexpected,
                }
            },
            _ => s is Unexpected,
        }
    }
}

fn respond(code: StatusCode, msg: &str) -> (s: SignupStep)
    ensures
        answers_with(s, code, msg@),
{
    Step::Respond((code, owned(msg)))
}

/// The signup endpoint with a given salt (see `signup_answers`).
pub fn signup_with_salt(payload: &LoginRequest, t: &[Outcome], salt: &[u8]) -> (r: SignupStep)
    ensures
        signup_answers(*payload, t@, salt@, r),
        r matches Step::Perform(Request::InsertUser { password_hash, .. })
            ==> password_accepted(payload.password@, password_hash@)
            && default_encoding_head().is_prefix_of(password_hash@),
{
    if t.len() == 0 {
        return Step::Perform(Request::CountUsername { username: payload.username.clone() });
    }
    match &t[0] {
        Outcome::UsernameCount(count) => {
            let counted = match count {
                Ok(n) => Ok(*n),
                Err(e) => Err(e.clone()),
            };
            let taken = match username_exists(counted) {
                Ok(taken) => taken,
                Err(_) => true,
            };
            if taken {
                return respond(StatusCode::CONFLICT, "Username already exists");
            }
        },
        _ => return Step::Unexpected,
    }
    if t.len() <= 1 {
        return match hash_password_with_salt(payload.password.as_str(), salt) {
            Err(_) => respond(StatusCode::INTERNAL_SERVER_ERROR, "Failed to hash password"),
            Ok(hash) => Step::Perform(Request::InsertUser { username: payload.username.clone(), password_hash: hash }),
        };
    }
    match &t[1] {
        Outcome::Done(Ok(())) => respond(StatusCode::CREATED, "User created successfully"),
        Outcome::Done(Err(_)) => respond(StatusCode::INTERNAL_SERVER_ERROR, "Failed to create user"),
        _ => Step::Unexpected,
    }
}

/// The signup endpoint: the password is hashed under a fresh random salt
/// of 16 bytes, so what is promised holds for some such salt.  Whatever the
/// salt, the credential check accepts the password against the hash that
/// is stored.
pub fn signup(payload: &LoginRequest, t: &[Outcome]) -> (r: SignupStep)
    ensures
        exists|salt: Seq<u8>| salt.len() == 16 && #[trigger] signup_answers(*payload, t@, salt, r),
        r matches Step::Perform(Request::InsertUser { password_hash, .. })
            ==> password_accepted(payload.password@, password_hash@)
            && default_encoding_head().is_prefix_of(password_hash@),
{
    let salt: [u8; 16] = crate::auth::utils::random_salt();
    let r = signup_with_salt(payload, t, salt.as_slice());
    assert(salt@.len() == 16);
    r
}

/// Signup stores an account only when counting the accounts with that name
/// succeeded and found none, and stores it under the given name with the
/// hash of the given password.
pub proof fn law_signup(p: LoginRequest, t: Seq<Outcome>, salt: Seq<u8>, s: SignupStep)
    requires
        signup_answers(p, t, salt, s),
    ensures
        s matches Step::Perform(Request::InsertUser { username, password_hash }) ==> {
            &&& t[0] matches Outcome::UsernameCount(Ok(n))
            &&& n <= 0
            &&& username == p.username
            &&& hashed_password(p.password@, salt) == Ok::<Seq<char>, Seq<char>>(password_hash@)
        },
{
}

/// An account that signup stores can log in with the same name and
/// password.
///
/// `s` is what signup asked for after the transcript `t`: to store the
/// account with a hash that the credential check accepts for the password,
/// as `signup` promises of every hash it stores.  While that row is
/// unchanged, login with the same credentials looks the account up (its id
/// is `id`), has the password checked against the stored hash (`checked`
/// is the check's answer, as `validate` gives it), which accepts; then
/// login reads the clock (`now`) and the signing secret, asks for a token
/// of an hour for that account, and answers `OK` with the token.
pub proof fn law_signup_then_login(
    p: LoginRequest,
    t: Seq<Outcome>,
    salt: Seq<u8>,
    s: SignupStep,
    id: i64,
    checked: Result<bool, String>,
    now: i64,
    secret: String,
    token: String,
)
    requires
        signup_answers(p, t, salt, s),
        s matches Step::Perform(Request::InsertUser { password_hash, .. })
            && password_accepted(p.password@, password_hash@)
            && is_validation(checked, validation(p.password@, Ok(Some(password_hash)))),
    ensures
        s matches Step::Perform(Request::InsertUser { username, .. }) && username == p.username,
        checked == Ok::<bool, String>(true),
        login_answer(p, seq![]) == LoginStepView::Perform(Request::FindUser { username: p.username }),
        login_answer(p, seq![Outcome::UserFound(Ok(id))])
            == LoginStepView::Perform(Request::ValidateCredentials { username: p.username, password: p.password }),
        login_answer(p, seq![Outcome::UserFound(Ok(id)), Outcome::Validated(checked)])
            == LoginStepView::Perform(Request::ReadClock),
        login_answer(p, seq![Outcome::UserFound(Ok(id)), Outcome::Validated(checked), Outcome::Clock(now)])
            == LoginStepView::Perform(Request::ReadSecret),
        login_answer(p, seq![
            Outcome::UserFound(Ok(id)),
            Outcome::Validated(checked),
            Outcome::Clock(now),
            Outcome::Secret(Some(secret)),
        ]) == LoginStepView::Perform(Request::IssueToken { claims: session_claims(id, now), secret }),
        login_answer(p, seq![
            Outcome::UserFound(Ok(id)),
            Outcome::Validated(checked),
            Outcome::Clock(now),
            Outcome::Secret(Some(secret)),
            Outcome::Token(Some(token)),
        ]) == LoginStepView::Respond((StatusCode::OK, LoginAnswer::Token(token@))),
{
}

} // verus!
