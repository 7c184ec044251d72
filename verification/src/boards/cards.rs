//! Cards: the items in a group.
use vstd::prelude::*;
use crate::boards::board::clone_opt_string;
use crate::boards::groups::GroupId;

verus! {

pub type CardId = i64;

/// A card in a group.
#[derive(Debug, PartialEq)]
pub struct Card {
    pub group_id: GroupId,
    pub title: String,
    pub content: Option<String>,
    pub position: String,
}

impl Clone for Card {
    fn clone(&self) -> (r: Self)
        ensures
            r == *self,
    {
        Card {
            group_id: self.group_id,
            title: self.title.clone(),
            content: clone_opt_string(&self.content),
            position: self.position.clone(),
        }
    }
}

} // verus!
