//! Accounts and authentication.
pub mod login;
pub mod me;
pub mod protect;
pub mod signup;
pub mod utils;

use vstd::prelude::*;

verus! {

pub type UserId = i32;

} // verus!
