//! Metadata entries: key/value pairs attached to a card.
use vstd::prelude::*;
use crate::boards::board::clone_opt_string;
use crate::boards::cards::CardId;

verus! {

pub type MetaId = i64;

/// A key/value entry attached to the card `item_id`.
#[derive(Debug, PartialEq)]
pub struct CardMetadata {
    pub item_id: CardId,
    pub key: String,
    pub value: Option<String>,
}

impl Clone for CardMetadata {
    fn clone(&self) -> (r: Self)
        ensures
            r == *self,
    {
        CardMetadata { item_id: self.item_id, key: self.key.clone(), value: clone_opt_string(&self.value) }
    }
}

} // verus!
