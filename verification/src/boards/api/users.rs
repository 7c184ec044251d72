//! Board membership endpoints.
use vstd::prelude::*;
use crate::boards::api::gate::{
    asks_change, caller_authorized, changes, gated, gated_changes, lemma_gate, law_gated_changes, role_just_fetched,
    lemma_gate_decides, locate, run_gated, succeed, work, ApiStep, ApiStepView, Body, Locate, LocatedView, ReplyView,
};
use crate::flow::{Outcome, Request, Step};
use crate::http::StatusCode;
use crate::boards::users::BoardUser;
use crate::boards::board::BoardId;
use crate::boards::role::BoardUserRole;
use crate::boards::users::UserId;

verus! {

/// A member of a board, as listed.
#[derive(Clone, Copy, Debug, PartialEq, Eq, Structural)]
pub struct BoardUserResponse {
    pub board_id: BoardId,
    pub user_id: UserId,
    pub role: BoardUserRole,
}

#[derive(Debug, PartialEq)]
pub struct AddUserRequest {
    pub board_id: BoardId,
    pub user_id: UserId,
    pub role: BoardUserRole,
}

#[derive(Debug, PartialEq)]
pub struct UpdateUserRoleRequest {
    pub board_id: BoardId,
    pub user_id: UserId,
    pub role: BoardUserRole,
}

#[derive(Debug, PartialEq)]
pub struct RemoveUserRequest {
    pub board_id: BoardId,
    pub user_id: UserId,
}

/// What a member below owner is told when managing members.
pub open spec fn members_forbidden() -> Seq<char> {
    "Only board owners can manage board members"@
}

/// The answer of the member listing endpoint after the transcript `t`.
pub open spec fn list_users_on_board_answer(board_id: BoardId, t: Seq<Outcome>) -> ApiStepView {
    gated(t, Locate::Board(board_id), BoardUserRole::Viewer, "No access to this board"@,
        |at: int, board: BoardId| work(t, at, board, Body::UsersOfBoard(board_id)))
}

/// Lists the members of a board, with their roles, to any of its members.
pub fn list_users_on_board(board_id: BoardId, t: &[Outcome]) -> (r: ApiStep)
    ensures
        r@ == list_users_on_board_answer(board_id, t@),
{
    run_gated(t, Locate::Board(board_id), BoardUserRole::Viewer, "No access to this board", Body::UsersOfBoard(board_id))
}

/// A membership change that only owners may make: one change, answered
/// with `done`.
pub open spec fn member_change(t: Seq<Outcome>, board_id: BoardId, req: Request, msg: &'static str, done: StatusCode) -> ApiStepView {
    gated(t, Locate::Board(board_id), BoardUserRole::Owner, members_forbidden(),
        |at: int, board: BoardId| changes(t, at, seq![(req, msg)], done))
}

fn run_member_change(t: &[Outcome], board_id: BoardId, req: Request, msg: &'static str, done: StatusCode) -> (r: ApiStep)
    ensures
        r@ == member_change(t@, board_id, req, msg, done),
{
    let ghost expected = seq![(req, msg)];
    let mut ops: Vec<(Request, &'static str)> = Vec::new();
    ops.push((req, msg));
    assert(ops@ =~= expected);
    let ghost body = Body::Changes(ops, done);
    let r = run_gated(t, Locate::Board(board_id), BoardUserRole::Owner,
        "Only board owners can manage board members", Body::Changes(ops, done));
    assert((|at: int, board: BoardId| work(t@, at, board, body)) =~= (|at: int, board: BoardId| changes(t@, at, expected, done)));
    r
}

/// The answer of the endpoint adding a member after the transcript `t`.
pub open spec fn add_user_to_board_answer(p: AddUserRequest, t: Seq<Outcome>) -> ApiStepView {
    member_change(t, p.board_id,
        Request::AddBoardUser { user: BoardUser { board_id: p.board_id, user_id: p.user_id, role: p.role } },
        "Failed to add user to board", StatusCode::CREATED)
}

/// Adds a member with a role to a board; only its owners may.
pub fn add_user_to_board(payload: &AddUserRequest, t: &[Outcome]) -> (r: ApiStep)
    ensures
        r@ == add_user_to_board_answer(*payload, t@),
{
    let user = BoardUser { board_id: payload.board_id, user_id: payload.user_id, role: payload.role };
    run_member_change(t, payload.board_id, Request::AddBoardUser { user }, "Failed to add user to board", StatusCode::CREATED)
}

/// The answer of the endpoint changing a member's role after the transcript `t`.
pub open spec fn update_user_role_answer(p: UpdateUserRoleRequest, t: Seq<Outcome>) -> ApiStepView {
    member_change(t, p.board_id,
        Request::SetBoardUserRole { user: BoardUser { board_id: p.board_id, user_id: p.user_id, role: p.role } },
        "Failed to update user role", StatusCode::OK)
}

/// Changes a member's role on a board; only its owners may.
pub fn update_user_role(payload: &UpdateUserRoleRequest, t: &[Outcome]) -> (r: ApiStep)
    ensures
        r@ == update_user_role_answer(*payload, t@),
{
    let user = BoardUser { board_id: payload.board_id, user_id: payload.user_id, role: payload.role };
    run_member_change(t, payload.board_id, Request::SetBoardUserRole { user }, "Failed to update user role", StatusCode::OK)
}

/// The answer of the endpoint removing a member after the transcript `t`.
pub open spec fn remove_user_from_board_answer(p: RemoveUserRequest, t: Seq<Outcome>) -> ApiStepView {
    member_change(t, p.board_id,
        Request::RemoveBoardUser { board_id: p.board_id, user_id: p.user_id },
        "Failed to remove user from board", StatusCode::OK)
}

/// Removes a member from a board; only its owners may.
pub fn remove_user_from_board(payload: &RemoveUserRequest, t: &[Outcome]) -> (r: ApiStep)
    ensures
        r@ == remove_user_from_board_answer(*payload, t@),
{
    run_member_change(t, payload.board_id, Request::RemoveBoardUser { board_id: payload.board_id, user_id: payload.user_id },
        "Failed to remove user from board", StatusCode::OK)
}

/// Members are added, changed and removed only for owners of the board;
/// listing the members never asks for a change.
pub proof fn law_member_endpoints(
    add: AddUserRequest,
    update: UpdateUserRoleRequest,
    remove: RemoveUserRequest,
    board_id: BoardId,
    t: Seq<Outcome>,
)
    ensures
        asks_change(add_user_to_board_answer(add, t)) ==> caller_authorized(t, Locate::Board(add.board_id), BoardUserRole::Owner),
        asks_change(update_user_role_answer(update, t)) ==> caller_authorized(t, Locate::Board(update.board_id), BoardUserRole::Owner),
        asks_change(remove_user_from_board_answer(remove, t)) ==> caller_authorized(t, Locate::Board(remove.board_id), BoardUserRole::Owner),
        !asks_change(list_users_on_board_answer(board_id, t)),
{
    lemma_gate(t, Locate::Board(add.board_id), BoardUserRole::Owner, members_forbidden());
    lemma_gate(t, Locate::Board(update.board_id), BoardUserRole::Owner, members_forbidden());
    lemma_gate(t, Locate::Board(remove.board_id), BoardUserRole::Owner, members_forbidden());
    lemma_gate(t, Locate::Board(board_id), BoardUserRole::Viewer, "No access to this board"@);
}

/// Adding a member asks for no change but adding the user named to the
/// board named with the role sent; once the caller's role on the board was
/// fetched, the change is asked for exactly when the caller owns the board;
/// `CREATED` is answered only after the change was asked for.
pub proof fn law_add_user_to_board(p: AddUserRequest, t: Seq<Outcome>)
    ensures
        forall|r: Request| add_user_to_board_answer(p, t) == ApiStepView::Perform(r) && r.is_change()
            ==> r == (Request::AddBoardUser { user: BoardUser { board_id: p.board_id, user_id: p.user_id, role: p.role } }),
        role_just_fetched(t, Locate::Board(p.board_id)) ==> (asks_change(add_user_to_board_answer(p, t))
            <==> caller_authorized(t, Locate::Board(p.board_id), BoardUserRole::Owner)),
        add_user_to_board_answer(p, t) == succeed(ReplyView::Status(StatusCode::CREATED)) ==> exists|k: int| 0 <= k < t.len()
            && #[trigger] add_user_to_board_answer(p, t.take(k)) == ApiStepView::Perform(Request::AddBoardUser { user: BoardUser { board_id: p.board_id, user_id: p.user_id, role: p.role } }),
{
    {
        let loc = Locate::Board(p.board_id);
        let ops = seq![(Request::AddBoardUser { user: BoardUser { board_id: p.board_id, user_id: p.user_id, role: p.role } }, "Failed to add user to board")];
        law_gated_changes(t, loc, BoardUserRole::Owner, members_forbidden(), ops, StatusCode::CREATED);
        assert(add_user_to_board_answer(p, t) == gated_changes(t, loc, BoardUserRole::Owner, members_forbidden(), ops, StatusCode::CREATED));
        if add_user_to_board_answer(p, t) == succeed(ReplyView::Status(StatusCode::CREATED)) {
            assert(ops[0].0 == (Request::AddBoardUser { user: BoardUser { board_id: p.board_id, user_id: p.user_id, role: p.role } }));
            let k = choose|k: int| 0 <= k < t.len() && #[trigger] gated_changes(t.take(k), loc, BoardUserRole::Owner,
                members_forbidden(), ops, StatusCode::CREATED) == ApiStepView::Perform(ops[0].0);
            assert(add_user_to_board_answer(p, t.take(k)) == gated_changes(t.take(k), loc, BoardUserRole::Owner, members_forbidden(), ops, StatusCode::CREATED));
        }
    }
}

/// Changing a member's role asks for no change but giving the user named,
/// on the board named, exactly the role sent; once the caller's role on the
/// board was fetched, the change is asked for exactly when the caller owns
/// the board; `OK` is answered only after the change was asked for.
pub proof fn law_update_user_role(p: UpdateUserRoleRequest, t: Seq<Outcome>)
    ensures
        forall|r: Request| update_user_role_answer(p, t) == ApiStepView::Perform(r) && r.is_change()
            ==> r == (Request::SetBoardUserRole { user: BoardUser { board_id: p.board_id, user_id: p.user_id, role: p.role } }),
        role_just_fetched(t, Locate::Board(p.board_id)) ==> (asks_change(update_user_role_answer(p, t))
            <==> caller_authorized(t, Locate::Board(p.board_id), BoardUserRole::Owner)),
        update_user_role_answer(p, t) == succeed(ReplyView::Status(StatusCode::OK)) ==> exists|k: int| 0 <= k < t.len()
            && #[trigger] update_user_role_answer(p, t.take(k)) == ApiStepView::Perform(Request::SetBoardUserRole { user: BoardUser { board_id: p.board_id, user_id: p.user_id, role: p.role } }),
{
    {
        let loc = Locate::Board(p.board_id);
        let ops = seq![(Request::SetBoardUserRole { user: BoardUser { board_id: p.board_id, user_id: p.user_id, role: p.role } }, "Failed to update user role")];
        law_gated_changes(t, loc, BoardUserRole::Owner, members_forbidden(), ops, StatusCode::OK);
        assert(update_user_role_answer(p, t) == gated_changes(t, loc, BoardUserRole::Owner, members_forbidden(), ops, StatusCode::OK));
        if update_user_role_answer(p, t) == succeed(ReplyView::Status(StatusCode::OK)) {
            assert(ops[0].0 == (Request::SetBoardUserRole { user: BoardUser { board_id: p.board_id, user_id: p.user_id, role: p.role } }));
            let k = choose|k: int| 0 <= k < t.len() && #[trigger] gated_changes(t.take(k), loc, BoardUserRole::Owner,
                members_forbidden(), ops, StatusCode::OK) == ApiStepView::Perform(ops[0].0);
            assert(update_user_role_answer(p, t.take(k)) == gated_changes(t.take(k), loc, BoardUserRole::Owner, members_forbidden(), ops, StatusCode::OK));
        }
    }
}

/// Removing a member asks for no change but removing the user named from
/// the board named; once the caller's role on the board was fetched, the
/// change is asked for exactly when the caller owns the board; `OK` is
/// answered only after the change was asked for.
pub proof fn law_remove_user_from_board(p: RemoveUserRequest, t: Seq<Outcome>)
    ensures
        forall|r: Request| remove_user_from_board_answer(p, t) == ApiStepView::Perform(r) && r.is_change()
            ==> r == (Request::RemoveBoardUser { board_id: p.board_id, user_id: p.user_id }),
        role_just_fetched(t, Locate::Board(p.board_id)) ==> (asks_change(remove_user_from_board_answer(p, t))
            <==> caller_authorized(t, Locate::Board(p.board_id), BoardUserRole::Owner)),
        remove_user_from_board_answer(p, t) == succeed(ReplyView::Status(StatusCode::OK)) ==> exists|k: int| 0 <= k < t.len()
            && #[trigger] remove_user_from_board_answer(p, t.take(k)) == ApiStepView::Perform(Request::RemoveBoardUser { board_id: p.board_id, user_id: p.user_id }),
{
    {
        let loc = Locate::Board(p.board_id);
        let ops = seq![(Request::RemoveBoardUser { board_id: p.board_id, user_id: p.user_id }, "Failed to remove user from board")];
        law_gated_changes(t, loc, BoardUserRole::Owner, members_forbidden(), ops, StatusCode::OK);
        assert(remove_user_from_board_answer(p, t) == gated_changes(t, loc, BoardUserRole::Owner, members_forbidden(), ops, StatusCode::OK));
        if remove_user_from_board_answer(p, t) == succeed(ReplyView::Status(StatusCode::OK)) {
            assert(ops[0].0 == (Request::RemoveBoardUser { board_id: p.board_id, user_id: p.user_id }));
            let k = choose|k: int| 0 <= k < t.len() && #[trigger] gated_changes(t.take(k), loc, BoardUserRole::Owner,
                members_forbidden(), ops, StatusCode::OK) == ApiStepView::Perform(ops[0].0);
            assert(remove_user_from_board_answer(p, t.take(k)) == gated_changes(t.take(k), loc, BoardUserRole::Owner, members_forbidden(), ops, StatusCode::OK));
        }
    }
}

/// A member of the board is answered, once its members were fetched, with
/// exactly those members, in the order fetched, each with the board, user
/// and role it was fetched with; before that the members of that board are
/// asked for.
pub proof fn law_list_users_on_board(board_id: BoardId, t: Seq<Outcome>, board: BoardId, at: int, v: Vec<BoardUser>)
    ensures
        caller_authorized(t, Locate::Board(board_id), BoardUserRole::Viewer) && locate(t, Locate::Board(board_id)) == (LocatedView::Found { board, at })
            && t.len() == at + 1
            ==> list_users_on_board_answer(board_id, t) == ApiStepView::Perform(Request::UsersOfBoard { board_id }),
        caller_authorized(t, Locate::Board(board_id), BoardUserRole::Viewer) && locate(t, Locate::Board(board_id)) == (LocatedView::Found { board, at })
            && t.len() > at + 1 && t[at + 1] == Outcome::Users(Ok(v))
            ==> list_users_on_board_answer(board_id, t) == succeed(ReplyView::Users(Seq::new(v@.len(), |i: int| BoardUserResponse { board_id: v@[i].board_id, user_id: v@[i].user_id, role: v@[i].role }))),
        role_just_fetched(t, Locate::Board(board_id)) && !caller_authorized(t, Locate::Board(board_id), BoardUserRole::Viewer)
            ==> (list_users_on_board_answer(board_id, t) matches Step::Respond(Err((code, _))) && code == StatusCode::FORBIDDEN),
{
    if role_just_fetched(t, Locate::Board(board_id)) {
        lemma_gate_decides(t, Locate::Board(board_id), BoardUserRole::Viewer, "No access to this board"@);
    }
    assert(v@.map_values(|u: BoardUser| crate::boards::api::gate::user_response(u)) =~= Seq::new(v@.len(), |i: int| BoardUserResponse { board_id: v@[i].board_id, user_id: v@[i].user_id, role: v@[i].role }));
}

} // verus!
