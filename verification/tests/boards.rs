use taskboard::auth::login::Claims;
use taskboard::boards::api::board::{
    create_board, delete_board, get_board_details, update_board_details, BoardCreateRequest, BoardDeleteRequest,
    BoardDetails, BoardUpdateRequest,
};
use taskboard::boards::api::card_metadata::{
    create_metadata, delete_metadata, get_metadata_details, list_metadata_for_card, update_metadata_value,
    MetadataCreateRequest, MetadataDeleteRequest, MetadataDetails, MetadataSummary, MetadataUpdateRequest,
};
use taskboard::boards::api::cards::{
    create_card, delete_card, get_card_details, list_cards_for_group, update_card, CardCreateRequest,
    CardDeleteRequest, CardDetails, CardSummary, CardUpdateRequest,
};
use taskboard::boards::api::gate::{ApiStep, Reply};
use taskboard::boards::api::groups::{
    create_group, delete_group, get_group_details, list_board_groups, update_group, GroupCreateRequest,
    GroupDeleteRequest, GroupDetails, GroupSummary, GroupUpdateRequest,
};
use taskboard::boards::api::users::{
    add_user_to_board, list_users_on_board, remove_user_from_board, update_user_role, AddUserRequest,
    BoardUserResponse, RemoveUserRequest, UpdateUserRoleRequest,
};
use taskboard::boards::board::Board;
use taskboard::boards::card_metadata::CardMetadata;
use taskboard::boards::cards::Card;
use taskboard::boards::groups::BoardGroup;
use taskboard::boards::role::BoardUserRole;
use taskboard::boards::users::BoardUser;
use taskboard::boards::utils::DbError;
use taskboard::flow::{Outcome, Request, Step};
use taskboard::http::StatusCode;

const USER: i64 = 7;

fn bearer() -> Outcome {
    Outcome::Bearer { claims: Some(Claims { sub: USER, exp: 1_000 }), now: 500 }
}

fn expired() -> Outcome {
    Outcome::Bearer { claims: Some(Claims { sub: USER, exp: 100 }), now: 500 }
}

fn role(r: Option<BoardUserRole>) -> Outcome {
    Outcome::Role(Ok(r))
}

fn db_err(msg: &str) -> DbError {
    DbError { message: msg.to_string() }
}

fn refused(step: ApiStep) -> (StatusCode, String) {
    match step {
        Step::Respond(Err(e)) => e,
        other => panic!("expected a refusal, got {:?}", other),
    }
}

fn group(board_id: i64) -> BoardGroup {
    BoardGroup { board_id, name: "Todo".to_string(), position: "a".to_string() }
}

fn card(group_id: i64) -> Card {
    Card { group_id, title: "Write tests".to_string(), content: Some("all of them".to_string()), position: "b".to_string() }
}

// ---- authorization course ----

#[test]
fn board_endpoint_authenticates_first() {
    assert_eq!(get_board_details(1, &[]), Step::Perform(Request::Authenticate));
    assert_eq!(delete_card(&CardDeleteRequest { card_id: 3 }, &[]), Step::Perform(Request::Authenticate));
}

#[test]
fn invalid_token_is_unauthorized() {
    let t = vec![Outcome::Bearer { claims: None, now: 500 }];
    assert_eq!(refused(get_board_details(1, &t)), (StatusCode::UNAUTHORIZED, "Invalid token".to_string()));
}

#[test]
fn expired_token_is_unauthorized() {
    let t = vec![expired()];
    assert_eq!(refused(list_board_groups(1, &t)), (StatusCode::UNAUTHORIZED, "Expired token".to_string()));
}

#[test]
fn role_is_fetched_for_the_caller() {
    let t = vec![bearer()];
    assert_eq!(get_board_details(4, &t), Step::Perform(Request::UserRole { board_id: 4, user_id: USER }));
}

#[test]
fn non_member_has_no_access() {
    let t = vec![bearer(), role(None)];
    assert_eq!(refused(get_board_details(4, &t)), (StatusCode::FORBIDDEN, "No access to this board".to_string()));
    let p = GroupCreateRequest { board_id: 4, name: "x".to_string(), position: "a".to_string() };
    assert_eq!(refused(create_group(&p, &t)), (StatusCode::FORBIDDEN, "No access to this board".to_string()));
}

#[test]
fn role_lookup_failure_is_internal_error() {
    let t = vec![bearer(), Outcome::Role(Err(db_err("database is locked")))];
    assert_eq!(
        refused(get_board_details(4, &t)),
        (StatusCode::INTERNAL_SERVER_ERROR, "Couldn't get user's board role: database is locked".to_string())
    );
}

#[test]
fn refusal_ignores_later_outcomes() {
    let t = vec![bearer(), role(Some(BoardUserRole::Viewer)), Outcome::Done(Ok(()))];
    let p = BoardUpdateRequest { board_id: 4, name: Some("n".to_string()), description: None };
    assert_eq!(
        refused(update_board_details(&p, &t)),
        (StatusCode::FORBIDDEN, "Only board owners can update the board".to_string())
    );
}

#[test]
fn unexpected_outcome_is_reported() {
    let t = vec![Outcome::Clock(3)];
    assert_eq!(get_board_details(4, &t), Step::Unexpected);
    let t = vec![bearer(), Outcome::Clock(3)];
    assert_eq!(get_board_details(4, &t), Step::Unexpected);
}

// ---- boards ----

#[test]
fn create_board_with_description() {
    let p = BoardCreateRequest { name: "Plan".to_string(), description: Some("Q3".to_string()) };
    assert_eq!(create_board(&p, &[]), Step::Perform(Request::Authenticate));
    let mut t = vec![bearer()];
    assert_eq!(create_board(&p, &t), Step::Perform(Request::CreateBoard { user_id: USER, name: "Plan".to_string() }));
    t.push(Outcome::Created(Ok(12)));
    assert_eq!(
        create_board(&p, &t),
        Step::Perform(Request::SetBoardDescription { board_id: 12, description: "Q3".to_string() })
    );
    t.push(Outcome::Done(Ok(())));
    assert_eq!(create_board(&p, &t), Step::Respond(Ok(Reply::Id(12))));
}

#[test]
fn create_board_without_description() {
    let p = BoardCreateRequest { name: "Plan".to_string(), description: None };
    let t = vec![bearer(), Outcome::Created(Ok(12))];
    assert_eq!(create_board(&p, &t), Step::Respond(Ok(Reply::Id(12))));
}

#[test]
fn create_board_failures() {
    let p = BoardCreateRequest { name: "Plan".to_string(), description: Some("Q3".to_string()) };
    let t = vec![bearer(), Outcome::Created(Err(db_err("no space")))];
    assert_eq!(refused(create_board(&p, &t)), (StatusCode::INTERNAL_SERVER_ERROR, "Failed to create board: no space".to_string()));
    let t = vec![bearer(), Outcome::Created(Ok(12)), Outcome::Done(Err(db_err("busy")))];
    assert_eq!(
        refused(create_board(&p, &t)),
        (StatusCode::INTERNAL_SERVER_ERROR, "Failed to set board description: busy".to_string())
    );
    let t = vec![Outcome::Bearer { claims: None, now: 1 }];
    assert_eq!(refused(create_board(&p, &t)), (StatusCode::UNAUTHORIZED, "Invalid token".to_string()));
}

#[test]
fn delete_board_needs_owner_and_changes_nothing() {
    let p = BoardDeleteRequest { board_id: 4 };
    let t = vec![bearer(), role(Some(BoardUserRole::Editor))];
    assert_eq!(refused(delete_board(&p, &t)), (StatusCode::FORBIDDEN, "Only board owners can delete the board".to_string()));
    let t = vec![bearer(), role(Some(BoardUserRole::Owner))];
    assert_eq!(delete_board(&p, &t), Step::Respond(Ok(Reply::Status(StatusCode::OK))));
}

#[test]
fn update_board_without_fields() {
    let p = BoardUpdateRequest { board_id: 4, name: None, description: None };
    assert_eq!(refused(update_board_details(&p, &[])), (StatusCode::BAD_REQUEST, "No fields to update".to_string()));
    assert_eq!(refused(update_board_details(&p, &[bearer()])), (StatusCode::BAD_REQUEST, "No fields to update".to_string()));
}

#[test]
fn update_board_name_then_description() {
    let p = BoardUpdateRequest { board_id: 4, name: Some("N".to_string()), description: Some("D".to_string()) };
    let mut t = vec![bearer(), role(Some(BoardUserRole::Owner))];
    assert_eq!(update_board_details(&p, &t), Step::Perform(Request::SetBoardName { board_id: 4, name: "N".to_string() }));
    t.push(Outcome::Done(Ok(())));
    assert_eq!(
        update_board_details(&p, &t),
        Step::Perform(Request::SetBoardDescription { board_id: 4, description: "D".to_string() })
    );
    t.push(Outcome::Done(Ok(())));
    assert_eq!(update_board_details(&p, &t), Step::Respond(Ok(Reply::Status(StatusCode::OK))));
}

#[test]
fn update_board_failure_names_the_change() {
    let p = BoardUpdateRequest { board_id: 4, name: None, description: Some("D".to_string()) };
    let t = vec![bearer(), role(Some(BoardUserRole::Owner)), Outcome::Done(Err(db_err("boom")))];
    assert_eq!(
        refused(update_board_details(&p, &t)),
        (StatusCode::INTERNAL_SERVER_ERROR, "Failed to update board description: boom".to_string())
    );
}

#[test]
fn board_details() {
    let t = vec![bearer(), role(Some(BoardUserRole::Viewer))];
    assert_eq!(get_board_details(4, &t), Step::Perform(Request::Board { board_id: 4 }));
    let b = Board { id: 4, name: "Plan".to_string(), description: None };
    let t = vec![bearer(), role(Some(BoardUserRole::Viewer)), Outcome::Board(Ok(Some(b)))];
    assert_eq!(
        get_board_details(4, &t),
        Step::Respond(Ok(Reply::Board(BoardDetails { name: "Plan".to_string(), description: None })))
    );
    let t = vec![bearer(), role(Some(BoardUserRole::Viewer)), Outcome::Board(Ok(None))];
    assert_eq!(refused(get_board_details(4, &t)), (StatusCode::NOT_FOUND, "Board not found".to_string()));
    let t = vec![bearer(), role(Some(BoardUserRole::Viewer)), Outcome::Board(Err(db_err("x")))];
    assert_eq!(refused(get_board_details(4, &t)), (StatusCode::INTERNAL_SERVER_ERROR, "Failed to fetch board details: x".to_string()));
}

// ---- groups ----

#[test]
fn create_group_flow() {
    let p = GroupCreateRequest { board_id: 4, name: "Todo".to_string(), position: "a".to_string() };
    let t = vec![bearer(), role(Some(BoardUserRole::Viewer))];
    assert_eq!(
        refused(create_group(&p, &t)),
        (StatusCode::FORBIDDEN, "Only board owners or editors can modify groups".to_string())
    );
    let t = vec![bearer(), role(Some(BoardUserRole::Editor))];
    assert_eq!(create_group(&p, &t), Step::Perform(Request::CreateGroup { group: group(4) }));
    let t = vec![bearer(), role(Some(BoardUserRole::Editor)), Outcome::Created(Ok(21))];
    assert_eq!(create_group(&p, &t), Step::Respond(Ok(Reply::Id(21))));
    let t = vec![bearer(), role(Some(BoardUserRole::Editor)), Outcome::Created(Err(db_err("fk")))];
    assert_eq!(refused(create_group(&p, &t)), (StatusCode::INTERNAL_SERVER_ERROR, "Failed to create group: fk".to_string()));
}

#[test]
fn group_lookup() {
    let p = GroupDeleteRequest { group_id: 21 };
    let t = vec![bearer()];
    assert_eq!(delete_group(&p, &t), Step::Perform(Request::Group { group_id: 21 }));
    let t = vec![bearer(), Outcome::Group(Ok(None))];
    assert_eq!(refused(delete_group(&p, &t)), (StatusCode::NOT_FOUND, "Group not found".to_string()));
    let t = vec![bearer(), Outcome::Group(Err(db_err("io")))];
    assert_eq!(refused(delete_group(&p, &t)), (StatusCode::INTERNAL_SERVER_ERROR, "Failed to fetch group: io".to_string()));
    let t = vec![bearer(), Outcome::Group(Ok(Some(group(4))))];
    assert_eq!(delete_group(&p, &t), Step::Perform(Request::UserRole { board_id: 4, user_id: USER }));
    let t = vec![bearer(), Outcome::Group(Ok(Some(group(4)))), role(Some(BoardUserRole::Owner))];
    assert_eq!(delete_group(&p, &t), Step::Perform(Request::DeleteGroup { group_id: 21 }));
    let t = vec![bearer(), Outcome::Group(Ok(Some(group(4)))), role(Some(BoardUserRole::Owner)), Outcome::Done(Ok(()))];
    assert_eq!(delete_group(&p, &t), Step::Respond(Ok(Reply::Status(StatusCode::OK))));
}

#[test]
fn update_group_flow() {
    let p = GroupUpdateRequest { group_id: 21, name: None, position: None };
    assert_eq!(refused(update_group(&p, &[])), (StatusCode::BAD_REQUEST, "No fields to update".to_string()));
    let p = GroupUpdateRequest { group_id: 21, name: None, position: Some("z".to_string()) };
    let t = vec![bearer(), Outcome::Group(Ok(Some(group(4)))), role(Some(BoardUserRole::Editor))];
    assert_eq!(update_group(&p, &t), Step::Perform(Request::SetGroupPosition { group_id: 21, position: "z".to_string() }));
    let t = vec![bearer(), Outcome::Group(Ok(Some(group(4)))), role(Some(BoardUserRole::Editor)), Outcome::Done(Err(db_err("e")))];
    assert_eq!(refused(update_group(&p, &t)), (StatusCode::INTERNAL_SERVER_ERROR, "Failed to update group position: e".to_string()));
}

#[test]
fn group_details_and_list() {
    let t = vec![bearer(), Outcome::Group(Ok(Some(group(4)))), role(Some(BoardUserRole::Viewer))];
    assert_eq!(
        get_group_details(21, &t),
        Step::Respond(Ok(Reply::Group(GroupDetails {
            group_id: 21,
            board_id: 4,
            name: "Todo".to_string(),
            position: "a".to_string(),
        })))
    );
    let t = vec![bearer(), role(Some(BoardUserRole::Viewer))];
    assert_eq!(list_board_groups(4, &t), Step::Perform(Request::GroupsOfBoard { board_id: 4 }));
    let t = vec![bearer(), role(Some(BoardUserRole::Viewer)), Outcome::Groups(Ok(vec![(21, group(4)), (22, group(4))]))];
    let expected = vec![
        GroupSummary { group_id: 21, board_id: 4, name: "Todo".to_string(), position: "a".to_string() },
        GroupSummary { group_id: 22, board_id: 4, name: "Todo".to_string(), position: "a".to_string() },
    ];
    assert_eq!(list_board_groups(4, &t), Step::Respond(Ok(Reply::Groups(expected))));
    let t = vec![bearer(), role(Some(BoardUserRole::Viewer)), Outcome::Groups(Err(db_err("q")))];
    assert_eq!(refused(list_board_groups(4, &t)), (StatusCode::INTERNAL_SERVER_ERROR, "Failed to fetch groups: q".to_string()));
}

// ---- cards ----

#[test]
fn create_card_flow() {
    let p = CardCreateRequest { group_id: 21, title: "Write tests".to_string(), content: Some("all of them".to_string()), position: "b".to_string() };
    let t = vec![bearer(), Outcome::Group(Ok(Some(group(4)))), role(Some(BoardUserRole::Viewer))];
    assert_eq!(refused(create_card(&p, &t)), (StatusCode::FORBIDDEN, "Only board owners or editors can modify cards".to_string()));
    let t = vec![bearer(), Outcome::Group(Ok(Some(group(4)))), role(Some(BoardUserRole::Editor))];
    assert_eq!(create_card(&p, &t), Step::Perform(Request::CreateCard { card: card(21) }));
    let t = vec![bearer(), Outcome::Group(Ok(Some(group(4)))), role(Some(BoardUserRole::Editor)), Outcome::Created(Ok(31))];
    assert_eq!(create_card(&p, &t), Step::Respond(Ok(Reply::Id(31))));
}

#[test]
fn card_board_lookup() {
    let p = CardDeleteRequest { card_id: 31 };
    assert_eq!(delete_card(&p, &[bearer()]), Step::Perform(Request::CardBoard { card_id: 31 }));
    let t = vec![bearer(), Outcome::BoardOf(Ok(None))];
    assert_eq!(refused(delete_card(&p, &t)), (StatusCode::NOT_FOUND, "Card not found".to_string()));
    let t = vec![bearer(), Outcome::BoardOf(Err(db_err("io")))];
    assert_eq!(refused(delete_card(&p, &t)), (StatusCode::INTERNAL_SERVER_ERROR, "Failed to fetch card board: io".to_string()));
    let t = vec![bearer(), Outcome::BoardOf(Ok(Some(4))), role(Some(BoardUserRole::Editor)), Outcome::Done(Err(db_err("x")))];
    assert_eq!(refused(delete_card(&p, &t)), (StatusCode::INTERNAL_SERVER_ERROR, "Failed to delete card: x".to_string()));
}

#[test]
fn update_card_all_fields_in_order() {
    let p = CardUpdateRequest {
        card_id: 31,
        title: Some("T".to_string()),
        content: Some(None),
        position: Some("c".to_string()),
    };
    let mut t = vec![bearer(), Outcome::BoardOf(Ok(Some(4))), role(Some(BoardUserRole::Owner))];
    assert_eq!(update_card(&p, &t), Step::Perform(Request::SetCardTitle { card_id: 31, title: "T".to_string() }));
    t.push(Outcome::Done(Ok(())));
    assert_eq!(update_card(&p, &t), Step::Perform(Request::SetCardContent { card_id: 31, content: None }));
    t.push(Outcome::Done(Ok(())));
    assert_eq!(update_card(&p, &t), Step::Perform(Request::SetCardPosition { card_id: 31, position: "c".to_string() }));
    t.push(Outcome::Done(Ok(())));
    assert_eq!(update_card(&p, &t), Step::Respond(Ok(Reply::Status(StatusCode::OK))));
}

#[test]
fn update_card_without_fields() {
    let p = CardUpdateRequest { card_id: 31, title: None, content: None, position: None };
    assert_eq!(refused(update_card(&p, &[])), (StatusCode::BAD_REQUEST, "No fields to update".to_string()));
}

#[test]
fn card_details_flow() {
    assert_eq!(get_card_details(31, &[bearer()]), Step::Perform(Request::Card { card_id: 31 }));
    let t = vec![bearer(), Outcome::Card(Ok(None))];
    assert_eq!(refused(get_card_details(31, &t)), (StatusCode::NOT_FOUND, "Card not found".to_string()));
    let t = vec![bearer(), Outcome::Card(Err(db_err("e")))];
    assert_eq!(refused(get_card_details(31, &t)), (StatusCode::INTERNAL_SERVER_ERROR, "Failed to fetch card: e".to_string()));
    let t = vec![bearer(), Outcome::Card(Ok(Some(card(21))))];
    assert_eq!(get_card_details(31, &t), Step::Perform(Request::CardBoard { card_id: 31 }));
    let t = vec![bearer(), Outcome::Card(Ok(Some(card(21)))), Outcome::BoardOf(Ok(Some(4))), role(Some(BoardUserRole::Viewer))];
    assert_eq!(
        get_card_details(31, &t),
        Step::Respond(Ok(Reply::Card(CardDetails {
            card_id: 31,
            board_id: 4,
            group_id: 21,
            title: "Write tests".to_string(),
            content: Some("all of them".to_string()),
            position: "b".to_string(),
        })))
    );
}

#[test]
fn list_cards_flow() {
    let t = vec![bearer(), Outcome::Group(Ok(Some(group(4)))), role(Some(BoardUserRole::Viewer))];
    assert_eq!(list_cards_for_group(21, &t), Step::Perform(Request::CardsOfGroup { group_id: 21 }));
    let t = vec![
        bearer(),
        Outcome::Group(Ok(Some(group(4)))),
        role(Some(BoardUserRole::Viewer)),
        Outcome::Cards(Ok(vec![(31, card(21))])),
    ];
    let expected = vec![CardSummary {
        card_id: 31,
        board_id: 4,
        group_id: 21,
        title: "Write tests".to_string(),
        content: Some("all of them".to_string()),
        position: "b".to_string(),
    }];
    assert_eq!(list_cards_for_group(21, &t), Step::Respond(Ok(Reply::Cards(expected))));
    let t = vec![bearer(), Outcome::Group(Ok(Some(group(4)))), role(Some(BoardUserRole::Viewer)), Outcome::Cards(Ok(vec![]))];
    assert_eq!(list_cards_for_group(21, &t), Step::Respond(Ok(Reply::Cards(vec![]))));
}

// ---- metadata ----

#[test]
fn metadata_create_and_update() {
    let p = MetadataCreateRequest { card_id: 31, key: "due".to_string(), value: Some("fri".to_string()) };
    let t = vec![bearer(), Outcome::BoardOf(Ok(Some(4))), role(Some(BoardUserRole::Viewer))];
    assert_eq!(
        refused(create_metadata(&p, &t)),
        (StatusCode::FORBIDDEN, "Only board owners or editors can modify card metadata".to_string())
    );
    let t = vec![bearer(), Outcome::BoardOf(Ok(Some(4))), role(Some(BoardUserRole::Editor))];
    let md = CardMetadata { item_id: 31, key: "due".to_string(), value: Some("fri".to_string()) };
    assert_eq!(create_metadata(&p, &t), Step::Perform(Request::CreateMetadata { metadata: md }));
    let u = MetadataUpdateRequest { meta_id: 41, value: None };
    assert_eq!(refused(update_metadata_value(&u, &[])), (StatusCode::BAD_REQUEST, "No fields to update".to_string()));
    let u = MetadataUpdateRequest { meta_id: 41, value: Some(None) };
    assert_eq!(update_metadata_value(&u, &[bearer()]), Step::Perform(Request::MetadataBoard { meta_id: 41 }));
    let t = vec![bearer(), Outcome::BoardOf(Ok(None))];
    assert_eq!(refused(update_metadata_value(&u, &t)), (StatusCode::NOT_FOUND, "Metadata entry not found".to_string()));
    let t = vec![bearer(), Outcome::BoardOf(Ok(Some(4))), role(Some(BoardUserRole::Editor))];
    assert_eq!(update_metadata_value(&u, &t), Step::Perform(Request::SetMetadataValue { meta_id: 41, value: None }));
}

#[test]
fn metadata_delete() {
    let p = MetadataDeleteRequest { meta_id: 41 };
    let t = vec![bearer(), Outcome::BoardOf(Err(db_err("z")))];
    assert_eq!(refused(delete_metadata(&p, &t)), (StatusCode::INTERNAL_SERVER_ERROR, "Failed to fetch metadata board: z".to_string()));
    let t = vec![bearer(), Outcome::BoardOf(Ok(Some(4))), role(Some(BoardUserRole::Owner)), Outcome::Done(Ok(()))];
    assert_eq!(delete_metadata(&p, &t), Step::Respond(Ok(Reply::Status(StatusCode::OK))));
}

#[test]
fn metadata_details_and_list() {
    let md = CardMetadata { item_id: 31, key: "due".to_string(), value: None };
    let t = vec![bearer(), Outcome::Metadata(Ok(None))];
    assert_eq!(refused(get_metadata_details(41, &t)), (StatusCode::NOT_FOUND, "Metadata entry not found".to_string()));
    let t = vec![bearer(), Outcome::Metadata(Err(db_err("r")))];
    assert_eq!(
        refused(get_metadata_details(41, &t)),
        (StatusCode::INTERNAL_SERVER_ERROR, "Failed to fetch metadata entry: r".to_string())
    );
    let t = vec![bearer(), Outcome::Metadata(Ok(Some(md.clone()))), Outcome::BoardOf(Ok(Some(4))), role(Some(BoardUserRole::Viewer))];
    assert_eq!(
        get_metadata_details(41, &t),
        Step::Respond(Ok(Reply::Metadata(MetadataDetails {
            meta_id: 41,
            board_id: 4,
            card_id: 31,
            key: "due".to_string(),
            value: None,
        })))
    );
    let t = vec![bearer(), Outcome::BoardOf(Ok(Some(4))), role(Some(BoardUserRole::Viewer)), Outcome::MetadataList(Ok(vec![(41, md)]))];
    let expected = vec![MetadataSummary { meta_id: 41, board_id: 4, card_id: 31, key: "due".to_string(), value: None }];
    assert_eq!(list_metadata_for_card(31, &t), Step::Respond(Ok(Reply::MetadataList(expected))));
    let t = vec![bearer(), Outcome::BoardOf(Ok(Some(4))), role(Some(BoardUserRole::Viewer)), Outcome::MetadataList(Err(db_err("m")))];
    assert_eq!(
        refused(list_metadata_for_card(31, &t)),
        (StatusCode::INTERNAL_SERVER_ERROR, "Failed to fetch metadata entries: m".to_string())
    );
}

// ---- members ----

#[test]
fn member_management_needs_owner() {
    let p = AddUserRequest { board_id: 4, user_id: 8, role: BoardUserRole::Editor };
    let t = vec![bearer(), role(Some(BoardUserRole::Editor))];
    assert_eq!(
        refused(add_user_to_board(&p, &t)),
        (StatusCode::FORBIDDEN, "Only board owners can manage board members".to_string())
    );
    let t = vec![bearer(), role(Some(BoardUserRole::Owner))];
    let member = BoardUser { board_id: 4, user_id: 8, role: BoardUserRole::Editor };
    assert_eq!(add_user_to_board(&p, &t), Step::Perform(Request::AddBoardUser { user: member }));
    let t = vec![bearer(), role(Some(BoardUserRole::Owner)), Outcome::Done(Ok(()))];
    assert_eq!(add_user_to_board(&p, &t), Step::Respond(Ok(Reply::Status(StatusCode::CREATED))));
    let t = vec![bearer(), role(Some(BoardUserRole::Owner)), Outcome::Done(Err(db_err("dup")))];
    assert_eq!(refused(add_user_to_board(&p, &t)), (StatusCode::INTERNAL_SERVER_ERROR, "Failed to add user to board: dup".to_string()));
}

#[test]
fn member_role_change_and_removal() {
    let u = UpdateUserRoleRequest { board_id: 4, user_id: 8, role: BoardUserRole::Owner };
    let t = vec![bearer(), role(Some(BoardUserRole::Owner)), Outcome::Done(Ok(()))];
    assert_eq!(update_user_role(&u, &t), Step::Respond(Ok(Reply::Status(StatusCode::OK))));
    let t = vec![bearer(), role(Some(BoardUserRole::Owner)), Outcome::Done(Err(db_err("u")))];
    assert_eq!(refused(update_user_role(&u, &t)), (StatusCode::INTERNAL_SERVER_ERROR, "Failed to update user role: u".to_string()));
    let r = RemoveUserRequest { board_id: 4, user_id: 8 };
    let t = vec![bearer(), role(Some(BoardUserRole::Owner))];
    assert_eq!(remove_user_from_board(&r, &t), Step::Perform(Request::RemoveBoardUser { board_id: 4, user_id: 8 }));
    let t = vec![bearer(), role(Some(BoardUserRole::Owner)), Outcome::Done(Err(db_err("r")))];
    assert_eq!(
        refused(remove_user_from_board(&r, &t)),
        (StatusCode::INTERNAL_SERVER_ERROR, "Failed to remove user from board: r".to_string())
    );
}

#[test]
fn list_members() {
    let t = vec![bearer(), role(Some(BoardUserRole::Viewer))];
    assert_eq!(list_users_on_board(4, &t), Step::Perform(Request::UsersOfBoard { board_id: 4 }));
    let members = vec![
        BoardUser { board_id: 4, user_id: USER, role: BoardUserRole::Viewer },
        BoardUser { board_id: 4, user_id: 9, role: BoardUserRole::Owner },
    ];
    let t = vec![bearer(), role(Some(BoardUserRole::Viewer)), Outcome::Users(Ok(members))];
    let expected = vec![
        BoardUserResponse { board_id: 4, user_id: USER, role: BoardUserRole::Viewer },
        BoardUserResponse { board_id: 4, user_id: 9, role: BoardUserRole::Owner },
    ];
    assert_eq!(list_users_on_board(4, &t), Step::Respond(Ok(Reply::Users(expected))));
    let t = vec![bearer(), role(Some(BoardUserRole::Viewer)), Outcome::Users(Err(db_err("l")))];
    assert_eq!(refused(list_users_on_board(4, &t)), (StatusCode::INTERNAL_SERVER_ERROR, "Failed to fetch board users: l".to_string()));
}
