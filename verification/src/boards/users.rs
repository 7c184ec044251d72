//! Board membership.
use vstd::prelude::*;
use crate::boards::{board::BoardId, role::BoardUserRole};

verus! {

pub type UserId = i64;

/// A user's membership of a board, with the role held there.
#[derive(Clone, Copy, Debug, PartialEq, Eq, Structural)]
pub struct BoardUser {
    pub board_id: BoardId,
    pub user_id: UserId,
    pub role: BoardUserRole,
}

} // verus!
