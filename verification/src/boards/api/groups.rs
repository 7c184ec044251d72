//! Group endpoints.
use vstd::prelude::*;
use crate::boards::api::gate::{
    asks_change, caller_authorized, changes, fail, gated, gated_changes, gated_create, lemma_gate, law_gated_changes,
    law_gated_create, lemma_gate_decides, locate, role_just_fetched, run_gated, succeed, work, ApiStep, ApiStepView, Body, Locate,
    LocatedView, ReplyView,
};
use crate::boards::role::BoardUserRole;
use crate::flow::{Outcome, Request, Step};
use crate::http::StatusCode;
use crate::text::owned;
use crate::boards::groups::BoardGroup;
use crate::boards::board::BoardId;
use crate::boards::groups::GroupId;

verus! {

#[derive(Debug, PartialEq)]
pub struct GroupCreateRequest {
    pub board_id: BoardId,
    pub name: String,
    pub position: String,
}

#[derive(Debug, PartialEq)]
pub struct GroupDeleteRequest {
    pub group_id: GroupId,
}

/// The payload of a group update; at least one field must be given.
#[derive(Debug, PartialEq)]
pub struct GroupUpdateRequest {
    pub group_id: GroupId,
    pub name: Option<String>,
    pub position: Option<String>,
}

/// What is shown of a group.
#[derive(Debug, PartialEq)]
pub struct GroupDetails {
    pub group_id: GroupId,
    pub board_id: BoardId,
    pub name: String,
    pub position: String,
}

/// A group in a board's list of groups.
#[derive(Debug, PartialEq)]
pub struct GroupSummary {
    pub group_id: GroupId,
    pub board_id: BoardId,
    pub name: String,
    pub position: String,
}

/// What a member below editor is told when changing groups.
pub open spec fn groups_forbidden() -> Seq<char> {
    "Only board owners or editors can modify groups"@
}

/// The answer of the group creation endpoint after the transcript `t`.
pub open spec fn create_group_answer(p: GroupCreateRequest, t: Seq<Outcome>) -> ApiStepView {
    gated(t, Locate::Board(p.board_id), BoardUserRole::Editor, groups_forbidden(),
        |at: int, board: BoardId| work(t, at, board, Body::Create(
            Request::CreateGroup { group: BoardGroup { board_id: p.board_id, name: p.name, position: p.position } },
            "Failed to create group")))
}

/// Creates a group on a board; editors and owners of the board may.
pub fn create_group(payload: &GroupCreateRequest, t: &[Outcome]) -> (r: ApiStep)
    ensures
        r@ == create_group_answer(*payload, t@),
{
    let group = BoardGroup { board_id: payload.board_id, name: payload.name.clone(), position: payload.position.clone() };
    run_gated(t, Locate::Board(payload.board_id), BoardUserRole::Editor,
        "Only board owners or editors can modify groups",
        Body::Create(Request::CreateGroup { group }, "Failed to create group"))
}

/// The answer of the group deletion endpoint after the transcript `t`.
pub open spec fn delete_group_answer(p: GroupDeleteRequest, t: Seq<Outcome>) -> ApiStepView {
    gated(t, Locate::Group(p.group_id), BoardUserRole::Editor, groups_forbidden(),
        |at: int, board: BoardId| changes(t, at,
            seq![(Request::DeleteGroup { group_id: p.group_id }, "Failed to delete group")], StatusCode::OK))
}

/// Deletes a group; editors and owners of the group's board may.
pub fn delete_group(payload: &GroupDeleteRequest, t: &[Outcome]) -> (r: ApiStep)
    ensures
        r@ == delete_group_answer(*payload, t@),
{
    let mut ops: Vec<(Request, &'static str)> = Vec::new();
    ops.push((Request::DeleteGroup { group_id: payload.group_id }, "Failed to delete group"));
    let ghost expected = seq![(Request::DeleteGroup { group_id: payload.group_id }, "Failed to delete group")];
    assert(ops@ =~= expected);
    let ghost body = Body::Changes(ops, StatusCode::OK);
    let r = run_gated(t, Locate::Group(payload.group_id), BoardUserRole::Editor,
        "Only board owners or editors can modify groups", Body::Changes(ops, StatusCode::OK));
    assert((|at: int, board: BoardId| work(t@, at, board, body)) =~= (|at: int, board: BoardId| changes(t@, at, expected, StatusCode::OK)));
    r
}

/// The changes a group update asks for, in the order they are made.
pub open spec fn group_update_changes(p: GroupUpdateRequest) -> Seq<(Request, &'static str)> {
    let name = match p.name {
        Some(name) => seq![(Request::SetGroupName { group_id: p.group_id, name }, "Failed to update group name")],
        None => Seq::empty(),
    };
    let position = match p.position {
        Some(position) => seq![(Request::SetGroupPosition { group_id: p.group_id, position }, "Failed to update group position")],
        None => Seq::empty(),
    };
    name + position
}

/// The answer of the group update endpoint after the transcript `t`.  An
/// update that names no field is refused before anything else.
pub open spec fn update_group_answer(p: GroupUpdateRequest, t: Seq<Outcome>) -> ApiStepView {
    if p.name is None && p.position is None {
        fail(StatusCode::BAD_REQUEST, "No fields to update"@)
    } else {
        gated(t, Locate::Group(p.group_id), BoardUserRole::Editor, groups_forbidden(),
            |at: int, board: BoardId| changes(t, at, group_update_changes(p), StatusCode::OK))
    }
}

/// Updates the given fields of a group; editors and owners of its board may.
pub fn update_group(payload: &GroupUpdateRequest, t: &[Outcome]) -> (r: ApiStep)
    ensures
        r@ == update_group_answer(*payload, t@),
{
    if payload.name.is_none() && payload.position.is_none() {
        return Step::Respond(Err((StatusCode::BAD_REQUEST, owned("No fields to update"))));
    }
    let mut ops: Vec<(Request, &'static str)> = Vec::new();
    if let Some(name) = &payload.name {
        ops.push((Request::SetGroupName { group_id: payload.group_id, name: name.clone() }, "Failed to update group name"));
    }
    if let Some(position) = &payload.position {
        ops.push((Request::SetGroupPosition { group_id: payload.group_id, position: position.clone() }, "Failed to update group position"));
    }
    let ghost expected = group_update_changes(*payload);
    assert(ops@ =~= expected);
    let ghost body = Body::Changes(ops, StatusCode::OK);
    let r = run_gated(t, Locate::Group(payload.group_id), BoardUserRole::Editor,
        "Only board owners or editors can modify groups", Body::Changes(ops, StatusCode::OK));
    assert((|at: int, board: BoardId| work(t@, at, board, body)) =~= (|at: int, board: BoardId| changes(t@, at, expected, StatusCode::OK)));
    r
}

/// The answer of the group details endpoint after the transcript `t`.
pub open spec fn get_group_details_answer(group_id: GroupId, t: Seq<Outcome>) -> ApiStepView {
    gated(t, Locate::Group(group_id), BoardUserRole::Viewer, "No access to this board"@,
        |at: int, board: BoardId| work(t, at, board, Body::GroupDetails(group_id)))
}

/// Shows a group to any member of its board.
pub fn get_group_details(group_id: GroupId, t: &[Outcome]) -> (r: ApiStep)
    ensures
        r@ == get_group_details_answer(group_id, t@),
{
    run_gated(t, Locate::Group(group_id), BoardUserRole::Viewer, "No access to this board", Body::GroupDetails(group_id))
}

/// The answer of the endpoint listing a board's groups after the transcript `t`.
pub open spec fn list_board_groups_answer(board_id: BoardId, t: Seq<Outcome>) -> ApiStepView {
    gated(t, Locate::Board(board_id), BoardUserRole::Viewer, "No access to this board"@,
        |at: int, board: BoardId| work(t, at, board, Body::GroupsOfBoard(board_id)))
}

/// Lists the groups of a board, ordered by position, to any of its members.
pub fn list_board_groups(board_id: BoardId, t: &[Outcome]) -> (r: ApiStep)
    ensures
        r@ == list_board_groups_answer(board_id, t@),
{
    run_gated(t, Locate::Board(board_id), BoardUserRole::Viewer, "No access to this board", Body::GroupsOfBoard(board_id))
}

/// Groups are created, changed and deleted only for editors and owners of
/// their board; showing and listing groups never asks for a change; an
/// update that names no field is refused, whatever the transcript.
pub proof fn law_group_endpoints(
    create: GroupCreateRequest,
    delete: GroupDeleteRequest,
    update: GroupUpdateRequest,
    group_id: GroupId,
    board_id: BoardId,
    t: Seq<Outcome>,
)
    ensures
        asks_change(create_group_answer(create, t)) ==> caller_authorized(t, Locate::Board(create.board_id), BoardUserRole::Editor),
        asks_change(delete_group_answer(delete, t)) ==> caller_authorized(t, Locate::Group(delete.group_id), BoardUserRole::Editor),
        asks_change(update_group_answer(update, t)) ==> caller_authorized(t, Locate::Group(update.group_id), BoardUserRole::Editor),
        !asks_change(get_group_details_answer(group_id, t)),
        !asks_change(list_board_groups_answer(board_id, t)),
        update.name is None && update.position is None
            ==> update_group_answer(update, t) == fail(StatusCode::BAD_REQUEST, "No fields to update"@),
{
    lemma_gate(t, Locate::Board(create.board_id), BoardUserRole::Editor, groups_forbidden());
    lemma_gate(t, Locate::Group(delete.group_id), BoardUserRole::Editor, groups_forbidden());
    lemma_gate(t, Locate::Group(update.group_id), BoardUserRole::Editor, groups_forbidden());
    lemma_gate(t, Locate::Group(group_id), BoardUserRole::Viewer, "No access to this board"@);
    lemma_gate(t, Locate::Board(board_id), BoardUserRole::Viewer, "No access to this board"@);
}

/// A group is created on the board named, with the name and position sent,
/// and nothing else is asked to change; once the caller's role on the board
/// was fetched, an editor or owner is asked for the creation and anyone
/// else is refused; the new group's id is answered only after the creation
/// was asked for and made with that id.
pub proof fn law_create_group(p: GroupCreateRequest, t: Seq<Outcome>)
    ensures
        forall|r: Request| create_group_answer(p, t) == ApiStepView::Perform(r) && r.is_change()
            ==> r == (Request::CreateGroup { group: BoardGroup { board_id: p.board_id, name: p.name, position: p.position } }),
        role_just_fetched(t, Locate::Board(p.board_id)) ==> (asks_change(create_group_answer(p, t))
            <==> caller_authorized(t, Locate::Board(p.board_id), BoardUserRole::Editor)),
        forall|id: i64| create_group_answer(p, t) == succeed(ReplyView::Id(id)) ==> exists|k: int| 0 <= k < t.len()
            && #[trigger] create_group_answer(p, t.take(k)) == ApiStepView::Perform(Request::CreateGroup { group: BoardGroup { board_id: p.board_id, name: p.name, position: p.position } })
            && t[k] == Outcome::Created(Ok(id)),
{
    let loc = Locate::Board(p.board_id);
    let req = Request::CreateGroup { group: BoardGroup { board_id: p.board_id, name: p.name, position: p.position } };
    let msg = "Failed to create group";
    law_gated_create(t, loc, BoardUserRole::Editor, groups_forbidden(), req, msg);
    assert(create_group_answer(p, t) == gated_create(t, loc, BoardUserRole::Editor, groups_forbidden(), req, msg));
    if let Step::Respond(Ok(ReplyView::Id(id))) = create_group_answer(p, t) {
        let k = choose|k: int| 0 <= k < t.len()
            && #[trigger] gated_create(t.take(k), loc, BoardUserRole::Editor, groups_forbidden(), req, msg) == ApiStepView::Perform(req)
            && t[k] == Outcome::Created(Ok(id));
        assert(create_group_answer(p, t.take(k)) == gated_create(t.take(k), loc, BoardUserRole::Editor, groups_forbidden(), req, msg));
    }
}

/// A group deletion asks for no change but the deletion of the group named;
/// once the caller's role on its board was fetched, the deletion is asked
/// for exactly when the caller is an editor or owner there (anyone else is
/// refused); `OK` is answered only after the deletion was asked for.
pub proof fn law_delete_group(p: GroupDeleteRequest, t: Seq<Outcome>)
    ensures
        forall|r: Request| delete_group_answer(p, t) == ApiStepView::Perform(r) && r.is_change()
            ==> r == (Request::DeleteGroup { group_id: p.group_id }),
        role_just_fetched(t, Locate::Group(p.group_id)) ==> (asks_change(delete_group_answer(p, t))
            <==> caller_authorized(t, Locate::Group(p.group_id), BoardUserRole::Editor)),
        delete_group_answer(p, t) == succeed(ReplyView::Status(StatusCode::OK)) ==> exists|k: int| 0 <= k < t.len()
            && #[trigger] delete_group_answer(p, t.take(k)) == ApiStepView::Perform(Request::DeleteGroup { group_id: p.group_id }),
{
    {
        let loc = Locate::Group(p.group_id);
        let ops = seq![(Request::DeleteGroup { group_id: p.group_id }, "Failed to delete group")];
        law_gated_changes(t, loc, BoardUserRole::Editor, groups_forbidden(), ops, StatusCode::OK);
        assert(delete_group_answer(p, t) == gated_changes(t, loc, BoardUserRole::Editor, groups_forbidden(), ops, StatusCode::OK));
        if delete_group_answer(p, t) == succeed(ReplyView::Status(StatusCode::OK)) {
            assert(ops[0].0 == (Request::DeleteGroup { group_id: p.group_id }));
            let k = choose|k: int| 0 <= k < t.len() && #[trigger] gated_changes(t.take(k), loc, BoardUserRole::Editor,
                groups_forbidden(), ops, StatusCode::OK) == ApiStepView::Perform(ops[0].0);
            assert(delete_group_answer(p, t.take(k)) == gated_changes(t.take(k), loc, BoardUserRole::Editor, groups_forbidden(), ops, StatusCode::OK));
        }
    }
}

/// Where each field's change stands among the changes of `group_update_changes`,
/// and that every change there is the change of a field named, with the
/// value sent.
proof fn lemma_group_update_changes(p: GroupUpdateRequest)
    ensures
        forall|i: int| 0 <= i < group_update_changes(p).len() ==> {
            let r = #[trigger] group_update_changes(p)[i].0;
            &&& r.is_change()
            &&& {
            ||| p.name is Some && r == (Request::SetGroupName { group_id: p.group_id, name: p.name->Some_0 })
            ||| p.position is Some && r == (Request::SetGroupPosition { group_id: p.group_id, position: p.position->Some_0 })
            }
        },
        p.name is Some ==> group_update_changes(p).len() > 0 && group_update_changes(p)[0].0 == (Request::SetGroupName { group_id: p.group_id, name: p.name->Some_0 }),
        p.position is Some ==> ({
            let i = if p.name is Some { 1int } else { 0int };
            i < group_update_changes(p).len() && group_update_changes(p)[i].0 == (Request::SetGroupPosition { group_id: p.group_id, position: p.position->Some_0 })
        }),
{
}

/// A successful update asked, at some earlier point, for its change
/// number `i`.
proof fn lemma_update_group_asked(p: GroupUpdateRequest, t: Seq<Outcome>, i: int)
    requires
        !(p.name is None && p.position is None),
        0 <= i < group_update_changes(p).len(),
        update_group_answer(p, t) == succeed(ReplyView::Status(StatusCode::OK)),
    ensures
        exists|k: int| 0 <= k < t.len() && #[trigger] update_group_answer(p, t.take(k))
            == ApiStepView::Perform(group_update_changes(p)[i].0),
{
    let loc = Locate::Group(p.group_id);
    let ops = group_update_changes(p);
    law_gated_changes(t, loc, BoardUserRole::Editor, groups_forbidden(), ops, StatusCode::OK);
    assert(update_group_answer(p, t) == gated_changes(t, loc, BoardUserRole::Editor, groups_forbidden(), ops, StatusCode::OK));
    assert(ops[i] == ops[i]);
    let k = choose|k: int| 0 <= k < t.len() && #[trigger] gated_changes(t.take(k), loc, BoardUserRole::Editor,
        groups_forbidden(), ops, StatusCode::OK) == ApiStepView::Perform(ops[i].0);
    assert(update_group_answer(p, t.take(k)) == gated_changes(t.take(k), loc, BoardUserRole::Editor, groups_forbidden(), ops, StatusCode::OK));
}

/// A group update asks for no change but those of the fields it names, each
/// for the group named and with the value sent: the name sent, the position
/// sent.  Once the caller's role on the group's board was fetched, an
/// update that names a field asks an editor or owner for a change and
/// refuses anyone else; and `OK` is answered only after the change of every
/// named field was asked for.
pub proof fn law_update_group(p: GroupUpdateRequest, t: Seq<Outcome>)
    ensures
        forall|r: Request| update_group_answer(p, t) == ApiStepView::Perform(r) && r.is_change() ==> {
            ||| p.name is Some && r == (Request::SetGroupName { group_id: p.group_id, name: p.name->Some_0 })
            ||| p.position is Some && r == (Request::SetGroupPosition { group_id: p.group_id, position: p.position->Some_0 })
        },
        role_just_fetched(t, Locate::Group(p.group_id)) && !(p.name is None && p.position is None)
            ==> (asks_change(update_group_answer(p, t)) <==> caller_authorized(t, Locate::Group(p.group_id), BoardUserRole::Editor)),
        update_group_answer(p, t) == succeed(ReplyView::Status(StatusCode::OK)) ==> {
            &&& p.name is Some ==> exists|k: int| 0 <= k < t.len() && #[trigger] update_group_answer(p, t.take(k))
                == ApiStepView::Perform(Request::SetGroupName { group_id: p.group_id, name: p.name->Some_0 })
            &&& p.position is Some ==> exists|k: int| 0 <= k < t.len() && #[trigger] update_group_answer(p, t.take(k))
                == ApiStepView::Perform(Request::SetGroupPosition { group_id: p.group_id, position: p.position->Some_0 })
        },
{
    if !(p.name is None && p.position is None) {
        let loc = Locate::Group(p.group_id);
        let ops = group_update_changes(p);
        lemma_group_update_changes(p);
        law_gated_changes(t, loc, BoardUserRole::Editor, groups_forbidden(), ops, StatusCode::OK);
        assert(update_group_answer(p, t) == gated_changes(t, loc, BoardUserRole::Editor, groups_forbidden(), ops, StatusCode::OK));
        assert forall|r: Request| update_group_answer(p, t) == ApiStepView::Perform(r) && r.is_change() implies {
            ||| p.name is Some && r == (Request::SetGroupName { group_id: p.group_id, name: p.name->Some_0 })
            ||| p.position is Some && r == (Request::SetGroupPosition { group_id: p.group_id, position: p.position->Some_0 })
        } by {
            let i = choose|i: int| 0 <= i < ops.len() && ops[i].0 == r;
            assert(ops[i].0 == r);
        }
        if role_just_fetched(t, loc) && caller_authorized(t, loc, BoardUserRole::Editor) {
            assert(ops[0].0.is_change());
        }
        if update_group_answer(p, t) == succeed(ReplyView::Status(StatusCode::OK)) {
            if p.name is Some {
                lemma_update_group_asked(p, t, 0);
            }
            if p.position is Some {
                lemma_update_group_asked(p, t, if p.name is Some { 1int } else { 0int });
            }
        }
    }
}

/// A member of the group's board is shown the group that was fetched: its
/// id, and the board, name and position it was fetched with; once the
/// caller's role was fetched, a caller who is no member is refused as
/// forbidden.
pub proof fn law_get_group_details(group_id: GroupId, t: Seq<Outcome>, board: BoardId, at: int, group: BoardGroup)
    ensures
        caller_authorized(t, Locate::Group(group_id), BoardUserRole::Viewer) && locate(t, Locate::Group(group_id)) == (LocatedView::Found { board, at })
            && t[1] == Outcome::Group(Ok(Some(group)))
            ==> get_group_details_answer(group_id, t) == succeed(ReplyView::Group(GroupDetails { group_id, board_id: group.board_id, name: group.name, position: group.position })),
        role_just_fetched(t, Locate::Group(group_id)) && !caller_authorized(t, Locate::Group(group_id), BoardUserRole::Viewer)
            ==> (get_group_details_answer(group_id, t) matches Step::Respond(Err((code, _))) && code == StatusCode::FORBIDDEN),
{
    if role_just_fetched(t, Locate::Group(group_id)) {
        lemma_gate_decides(t, Locate::Group(group_id), BoardUserRole::Viewer, "No access to this board"@);
    }
}

/// A member of the board is answered, once its groups were fetched, with
/// exactly those groups, in the order fetched, each with its id, the board
/// asked for, and its name and position; before that the groups of that
/// board are asked for.
pub proof fn law_list_board_groups(board_id: BoardId, t: Seq<Outcome>, board: BoardId, at: int, v: Vec<(GroupId, BoardGroup)>)
    ensures
        caller_authorized(t, Locate::Board(board_id), BoardUserRole::Viewer) && locate(t, Locate::Board(board_id)) == (LocatedView::Found { board, at })
            && t.len() == at + 1
            ==> list_board_groups_answer(board_id, t) == ApiStepView::Perform(Request::GroupsOfBoard { board_id }),
        caller_authorized(t, Locate::Board(board_id), BoardUserRole::Viewer) && locate(t, Locate::Board(board_id)) == (LocatedView::Found { board, at })
            && t.len() > at + 1 && t[at + 1] == Outcome::Groups(Ok(v))
            ==> list_board_groups_answer(board_id, t) == succeed(ReplyView::Groups(Seq::new(v@.len(), |i: int| GroupSummary { group_id: v@[i].0, board_id, name: v@[i].1.name, position: v@[i].1.position }))),
        role_just_fetched(t, Locate::Board(board_id)) && !caller_authorized(t, Locate::Board(board_id), BoardUserRole::Viewer)
            ==> (list_board_groups_answer(board_id, t) matches Step::Respond(Err((code, _))) && code == StatusCode::FORBIDDEN),
{
    if role_just_fetched(t, Locate::Board(board_id)) {
        lemma_gate_decides(t, Locate::Board(board_id), BoardUserRole::Viewer, "No access to this board"@);
    }
    assert(v@.map_values(|p: (GroupId, BoardGroup)| crate::boards::api::gate::group_summary(p, board_id)) =~= Seq::new(v@.len(), |i: int| GroupSummary { group_id: v@[i].0, board_id, name: v@[i].1.name, position: v@[i].1.position }));
}

} // verus!
