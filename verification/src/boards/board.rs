//! Boards.
use vstd::prelude::*;
use crate::boards::role::BoardUserRole;

verus! {

pub type BoardId = i64;

/// The role that the creator of a board receives on it.
pub const CREATOR_ROLE: BoardUserRole = BoardUserRole::Owner;

/// A board as stored.
#[derive(Debug, PartialEq)]
pub struct Board {
    pub id: BoardId,
    pub name: String,
    pub description: Option<String>,
}

/// A copy of an optional string.
pub fn clone_opt_string(s: &Option<String>) -> (r: Option<String>)
    ensures
        r == *s,
{
    match s {
        Some(v) => Some(v.clone()),
        None => None,
    }
}

impl Clone for Board {
    fn clone(&self) -> (r: Self)
        ensures
            r == *self,
    {
        Board { id: self.id, name: self.name.clone(), description: clone_opt_string(&self.description) }
    }
}

} // verus!
