//! Groups: the columns of a board.
use vstd::prelude::*;
use crate::boards::board::BoardId;

verus! {

pub type GroupId = i64;

/// A group of cards on a board.
#[derive(Debug, PartialEq)]
pub struct BoardGroup {
    pub board_id: BoardId,
    pub name: String,
    pub position: String,
}

impl Clone for BoardGroup {
    fn clone(&self) -> (r: Self)
        ensures
            r == *self,
    {
        BoardGroup { board_id: self.board_id, name: self.name.clone(), position: self.position.clone() }
    }
}

} // verus!
