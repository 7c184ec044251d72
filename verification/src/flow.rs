//! The conversation between a request handler and the outside world.
//!
//! A handler never touches the database, the clock or the token codec
//! itself.  It is a function from what the outside world has answered so
//! far (a transcript of `Outcome`s, oldest first) to the next `Step`: a
//! `Request` to carry out, or the response to send.  The program that
//! serves the handler carries out each request and appends its outcome.
use vstd::prelude::*;
use crate::auth::login::Claims;
use crate::boards::{
    board::{clone_opt_string, Board, BoardId},
    card_metadata::{CardMetadata, MetaId},
    cards::{Card, CardId},
    groups::{BoardGroup, GroupId},
    role::BoardUserRole,
    users::{BoardUser, UserId},
    utils::DbError,
};

verus! {

/// Something a handler asks the outside world to do.
#[derive(Debug, PartialEq)]
pub enum Request {
    /// Decode the bearer token of the request and read the clock.
    Authenticate,
    /// The role of `user_id` on `board_id`, if any.
    UserRole { board_id: BoardId, user_id: UserId },
    /// The group `group_id`, if it exists.
    Group { group_id: GroupId },
    /// The board that holds the card `card_id`, if the card exists.
    CardBoard { card_id: CardId },
    /// The board that holds the metadata entry `meta_id`, if it exists.
    MetadataBoard { meta_id: MetaId },
    /// The card `card_id`, if it exists.
    Card { card_id: CardId },
    /// The metadata entry `meta_id`, if it exists.
    Metadata { meta_id: MetaId },
    /// The board `board_id`, if it exists.
    Board { board_id: BoardId },
    /// All groups of a board, ordered by position.
    GroupsOfBoard { board_id: BoardId },
    /// All cards of a group, ordered by position.
    CardsOfGroup { group_id: GroupId },
    /// All metadata entries of a card.
    MetadataOfCard { card_id: CardId },
    /// All members of a board.
    UsersOfBoard { board_id: BoardId },
    /// Create a board named `name`, owned by `user_id`.
    CreateBoard { user_id: UserId, name: String },
    SetBoardName { board_id: BoardId, name: String },
    SetBoardDescription { board_id: BoardId, description: String },
    CreateGroup { group: BoardGroup },
    SetGroupName { group_id: GroupId, name: String },
    SetGroupPosition { group_id: GroupId, position: String },
    DeleteGroup { group_id: GroupId },
    CreateCard { card: Card },
    SetCardTitle { card_id: CardId, title: String },
    SetCardContent { card_id: CardId, content: Option<String> },
    SetCardPosition { card_id: CardId, position: String },
    DeleteCard { card_id: CardId },
    CreateMetadata { metadata: CardMetadata },
    SetMetadataValue { meta_id: MetaId, value: Option<String> },
    DeleteMetadata { meta_id: MetaId },
    AddBoardUser { user: BoardUser },
    SetBoardUserRole { user: BoardUser },
    RemoveBoardUser { board_id: BoardId, user_id: UserId },
    /// The id of the account `username`.
    FindUser { username: String },
    /// Check `password` against the stored hash of `username`.
    ValidateCredentials { username: String, password: String },
    /// The current time, in seconds since the Unix epoch.
    ReadClock,
    /// The secret that tokens are signed with.
    ReadSecret,
    /// Sign `claims` with `secret` into a token.
    IssueToken { claims: Claims, secret: String },
    /// How many accounts are named `username`.
    CountUsername { username: String },
    /// Store a new account.
    InsertUser { username: String, password_hash: String },
    /// The name of the account `user_id`.
    UsernameById { user_id: UserId },
}

impl Request {
    /// Whether carrying out the request changes stored data.
    pub open spec fn is_change(self) -> bool {
        match self {
            Request::CreateBoard { .. } | Request::SetBoardName { .. }
            | Request::SetBoardDescription { .. } | Request::CreateGroup { .. }
            | Request::SetGroupName { .. } | Request::SetGroupPosition { .. }
            | Request::DeleteGroup { .. } | Request::CreateCard { .. }
            | Request::SetCardTitle { .. } | Request::SetCardContent { .. }
            | Request::SetCardPosition { .. } | Request::DeleteCard { .. }
            | Request::CreateMetadata { .. } | Request::SetMetadataValue { .. }
            | Request::DeleteMetadata { .. } | Request::AddBoardUser { .. }
            | Request::SetBoardUserRole { .. } | Request::RemoveBoardUser { .. }
            | Request::InsertUser { .. } => true,
            _ => false,
        }
    }
}

impl Clone for Request {
    fn clone(&self) -> (r: Self)
        ensures
            r == *self,
    {
        match self {
            Request::Authenticate => Request::Authenticate,
            Request::UserRole { board_id, user_id } => Request::UserRole { board_id: *board_id, user_id: *user_id },
            Request::Group { group_id } => Request::Group { group_id: *group_id },
            Request::CardBoard { card_id } => Request::CardBoard { card_id: *card_id },
            Request::MetadataBoard { meta_id } => Request::MetadataBoard { meta_id: *meta_id },
            Request::Card { card_id } => Request::Card { card_id: *card_id },
            Request::Metadata { meta_id } => Request::Metadata { meta_id: *meta_id },
            Request::Board { board_id } => Request::Board { board_id: *board_id },
            Request::GroupsOfBoard { board_id } => Request::GroupsOfBoard { board_id: *board_id },
            Request::CardsOfGroup { group_id } => Request::CardsOfGroup { group_id: *group_id },
            Request::MetadataOfCard { card_id } => Request::MetadataOfCard { card_id: *card_id },
            Request::UsersOfBoard { board_id } => Request::UsersOfBoard { board_id: *board_id },
            Request::CreateBoard { user_id, name } => Request::CreateBoard { user_id: *user_id, name: name.clone() },
            Request::SetBoardName { board_id, name } => Request::SetBoardName { board_id: *board_id, name: name.clone() },
            Request::SetBoardDescription { board_id, description } => Request::SetBoardDescription { board_id: *board_id, description: description.clone() },
            Request::CreateGroup { group } => Request::CreateGroup { group: group.clone() },
            Request::SetGroupName { group_id, name } => Request::SetGroupName { group_id: *group_id, name: name.clone() },
            Request::SetGroupPosition { group_id, position } => Request::SetGroupPosition { group_id: *group_id, position: position.clone() },
            Request::DeleteGroup { group_id } => Request::DeleteGroup { group_id: *group_id },
            Request::CreateCard { card } => Request::CreateCard { card: card.clone() },
            Request::SetCardTitle { card_id, title } => Request::SetCardTitle { card_id: *card_id, title: title.clone() },
            Request::SetCardContent { card_id, content } => Request::SetCardContent { card_id: *card_id, content: clone_opt_string(content) },
            Request::SetCardPosition { card_id, position } => Request::SetCardPosition { card_id: *card_id, position: position.clone() },
            Request::DeleteCard { card_id } => Request::DeleteCard { card_id: *card_id },
            Request::CreateMetadata { metadata } => Request::CreateMetadata { metadata: metadata.clone() },
            Request::SetMetadataValue { meta_id, value } => Request::SetMetadataValue { meta_id: *meta_id, value: clone_opt_string(value) },
            Request::DeleteMetadata { meta_id } => Request::DeleteMetadata { meta_id: *meta_id },
            Request::AddBoardUser { user } => Request::AddBoardUser { user: *user },
            Request::SetBoardUserRole { user } => Request::SetBoardUserRole { user: *user },
            Request::RemoveBoardUser { board_id, user_id } => Request::RemoveBoardUser { board_id: *board_id, user_id: *user_id },
            Request::FindUser { username } => Request::FindUser { username: username.clone() },
            Request::ValidateCredentials { username, password } => Request::ValidateCredentials { username: username.clone(), password: password.clone() },
            Request::ReadClock => Request::ReadClock,
            Request::ReadSecret => Request::ReadSecret,
            Request::IssueToken { claims, secret } => Request::IssueToken { claims: *claims, secret: secret.clone() },
            Request::CountUsername { username } => Request::CountUsername { username: username.clone() },
            Request::InsertUser { username, password_hash } => Request::InsertUser { username: username.clone(), password_hash: password_hash.clone() },
            Request::UsernameById { user_id } => Request::UsernameById { user_id: *user_id },
        }
    }
}

/// What the outside world answered to a `Request`.
#[derive(Debug, PartialEq)]
pub enum Outcome {
    /// The decoded bearer token (`None` when it could not be decoded or
    /// verified) and the current time.
    Bearer { claims: Option<Claims>, now: i64 },
    Role(Result<Option<BoardUserRole>, DbError>),
    Group(Result<Option<BoardGroup>, DbError>),
    BoardOf(Result<Option<BoardId>, DbError>),
    Card(Result<Option<Card>, DbError>),
    Metadata(Result<Option<CardMetadata>, DbError>),
    Board(Result<Option<Board>, DbError>),
    Groups(Result<Vec<(GroupId, BoardGroup)>, DbError>),
    Cards(Result<Vec<(CardId, Card)>, DbError>),
    MetadataList(Result<Vec<(MetaId, CardMetadata)>, DbError>),
    Users(Result<Vec<BoardUser>, DbError>),
    /// The id of a created row.
    Created(Result<i64, DbError>),
    /// A change that returns nothing.
    Done(Result<(), DbError>),
    /// The id of the account looked up by name.
    UserFound(Result<i64, DbError>),
    /// Whether the credentials are valid, or why that could not be told.
    Validated(Result<bool, String>),
    Clock(i64),
    /// The signing secret, if it is configured.
    Secret(Option<String>),
    /// The signed token, if signing succeeded.
    Token(Option<String>),
    UsernameCount(Result<i64, DbError>),
    Username(Result<String, DbError>),
}

/// What a handler does next.
#[derive(Debug, PartialEq)]
pub enum Step<R> {
    /// Carry out the request and append its outcome to the transcript.
    Perform(Request),
    /// Send this response; the handler is done.
    Respond(R),
    /// The transcript holds an outcome of a kind that does not answer the
    /// request that was made at its place.
    Unexpected,
}

} // verus!
