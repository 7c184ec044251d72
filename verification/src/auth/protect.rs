//! A route that only authenticated users may reach.
use vstd::prelude::*;
use crate::auth::login::Claims;
use crate::auth::utils::{bearer_user, extract_bearer};
use crate::http::StatusCode;
use crate::text::{decimal, decimal_string};
use vstd::string::*;

verus! {

/// The greeting of the protected route for a user.
pub open spec fn protected_greeting(user: i64) -> Seq<char> {
    "Protected route accessed by user ID: "@ + decimal(user as int)
}

/// Answers the protected route: `claims` is the decoded bearer token (`None`
/// when it could not be decoded) and `now` the current Unix time.
pub fn protected_route(claims: Option<Claims>, now: i64) -> (r: Result<String, StatusCode>)
    ensures
        match bearer_user(claims, now) {
            Err(_) => r == Err::<String, StatusCode>(StatusCode::UNAUTHORIZED),
            Ok(user) => r matches Ok(s) && s@ == protected_greeting(user),
        },
{
    match extract_bearer(claims, now) {
        Err(_) => Err(StatusCode::UNAUTHORIZED),
        Ok(user) => {
            let mut s = String::from_str("Protected route accessed by user ID: ");
            let digits = decimal_string(user);
            s.append(digits.as_str());
            Ok(s)
        },
    }
}

} // verus!
