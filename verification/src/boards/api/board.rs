//! Board endpoints.
use vstd::prelude::*;
use crate::auth::utils::{bearer_user, extract_bearer};
use crate::boards::api::gate::{
    asks_change, bearer_accepted, bearer_subject, caller_authorized, changes, db_fail, db_failure, fail, gated, gated_changes,
    lemma_gate, lemma_gate_decides, law_gated_changes, locate, role_just_fetched, run_gated, succeed, work, ApiStep, ApiStepView, Body,
    Locate, LocatedView, Reply, ReplyView,
};
use crate::boards::api::utils::{auth_failure, map_auth_error};
use crate::boards::role::BoardUserRole;
use crate::flow::{Outcome, Request, Step};
use crate::http::StatusCode;
use crate::text::owned;
use crate::boards::board::{Board, BoardId};

verus! {

/// The payload of a board creation.
#[derive(Debug, PartialEq)]
pub struct BoardCreateRequest {
    pub name: String,
    pub description: Option<String>,
}

/// The payload of a board deletion.
#[derive(Debug, PartialEq)]
pub struct BoardDeleteRequest {
    pub board_id: BoardId,
}

/// The payload of a board update; at least one field must be given.
#[derive(Debug, PartialEq)]
pub struct BoardUpdateRequest {
    pub board_id: BoardId,
    pub name: Option<String>,
    pub description: Option<String>,
}

/// What is shown of a board.
#[derive(Debug, PartialEq)]
pub struct BoardDetails {
    pub name: String,
    pub description: Option<String>,
}

/// The answer of the board creation endpoint after the transcript `t`: the
/// caller is authenticated, the board is created with the caller as its
/// owner, then its description is set if one was given; the answer is the
/// new board's id.
pub open spec fn create_board_answer(p: BoardCreateRequest, t: Seq<Outcome>) -> ApiStepView {
    if t.len() == 0 {
        Step::Perform(Request::Authenticate)
    } else {
        match t[0] {
            Outcome::Bearer { claims, now } => match bearer_user(claims, now) {
                Err(e) => Step::Respond(Err(auth_failure(e))),
                Ok(user) => if t.len() <= 1 {
                    Step::Perform(Request::CreateBoard { user_id: user, name: p.name })
                } else {
                    match t[1] {
                        Outcome::Created(Err(e)) => db_failure("Failed to create board"@, e),
                        Outcome::Created(Ok(id)) => match p.description {
                            None => succeed(ReplyView::Id(id)),
                            Some(description) => if t.len() <= 2 {
                                Step::Perform(Request::SetBoardDescription { board_id: id, description })
                            } else {
                                match t[2] {
                                    Outcome::Done(Ok(())) => succeed(ReplyView::Id(id)),
                                    Outcome::Done(Err(e)) => db_failure("Failed to set board description"@, e),
                                    _ => Step::Unexpected,
                                }
                            },
                        },
                        _ => Step::Unexpected,
                    }
                },
            },
            _ => Step::Unexpected,
        }
    }
}

/// Creates a board owned by the caller.
pub fn create_board(payload: &BoardCreateRequest, t: &[Outcome]) -> (r: ApiStep)
    ensures
        r@ == create_board_answer(*payload, t@),
{
    if t.len() == 0 {
        return Step::Perform(Request::Authenticate);
    }
    match &t[0] {
        Outcome::Bearer { claims, now } => match extract_bearer(*claims, *now) {
            Err(e) => Step::Respond(Err(map_auth_error(e))),
            Ok(user) => if t.len() <= 1 {
                Step::Perform(Request::CreateBoard { user_id: user, name: payload.name.clone() })
            } else {
                match &t[1] {
                    Outcome::Created(Err(e)) => db_fail("Failed to create board", e),
                    Outcome::Created(Ok(id)) => match &payload.description {
                        None => Step::Respond(Ok(Reply::Id(*id))),
                        Some(description) => if t.len() <= 2 {
                            Step::Perform(Request::SetBoardDescription { board_id: *id, description: description.clone() })
                        } else {
                            match &t[2] {
                                Outcome::Done(Ok(())) => Step::Respond(Ok(Reply::Id(*id))),
                                Outcome::Done(Err(e)) => db_fail("Failed to set board description", e),
                                _ => Step::Unexpected,
                            }
                        },
                    },
                    _ => Step::Unexpected,
                }
            },
        },
        _ => Step::Unexpected,
    }
}

/// The answer of the board deletion endpoint after the transcript `t`: the
/// caller must own the board, and is then answered `OK`.  No change is
/// asked for.
pub open spec fn delete_board_answer(p: BoardDeleteRequest, t: Seq<Outcome>) -> ApiStepView {
    gated(t, Locate::Board(p.board_id), BoardUserRole::Owner, "Only board owners can delete the board"@,
        |at: int, board: BoardId| work(t, at, board, Body::Status(StatusCode::OK)))
}

/// Answers a board deletion: only owners are accepted.
pub fn delete_board(payload: &BoardDeleteRequest, t: &[Outcome]) -> (r: ApiStep)
    ensures
        r@ == delete_board_answer(*payload, t@),
{
    run_gated(t, Locate::Board(payload.board_id), BoardUserRole::Owner,
        "Only board owners can delete the board", Body::Status(StatusCode::OK))
}

/// The changes a board update asks for, in the order they are made.
pub open spec fn board_update_changes(p: BoardUpdateRequest) -> Seq<(Request, &'static str)> {
    let name = match p.name {
        Some(name) => seq![(Request::SetBoardName { board_id: p.board_id, name }, "Failed to update board name")],
        None => Seq::empty(),
    };
    let description = match p.description {
        Some(description) => seq![(Request::SetBoardDescription { board_id: p.board_id, description },
            "Failed to update board description")],
        None => Seq::empty(),
    };
    name + description
}

/// The answer of the board update endpoint after the transcript `t`.  An
/// update that names no field is refused before anything else.
pub open spec fn update_board_details_answer(p: BoardUpdateRequest, t: Seq<Outcome>) -> ApiStepView {
    if p.name is None && p.description is None {
        fail(StatusCode::BAD_REQUEST, "No fields to update"@)
    } else {
        gated(t, Locate::Board(p.board_id), BoardUserRole::Owner, "Only board owners can update the board"@,
            |at: int, board: BoardId| changes(t, at, board_update_changes(p), StatusCode::OK))
    }
}

/// Updates the name and/or description of a board; only its owners may.
pub fn update_board_details(payload: &BoardUpdateRequest, t: &[Outcome]) -> (r: ApiStep)
    ensures
        r@ == update_board_details_answer(*payload, t@),
{
    if payload.name.is_none() && payload.description.is_none() {
        return Step::Respond(Err((StatusCode::BAD_REQUEST, owned("No fields to update"))));
    }
    let mut ops: Vec<(Request, &'static str)> = Vec::new();
    if let Some(name) = &payload.name {
        ops.push((Request::SetBoardName { board_id: payload.board_id, name: name.clone() }, "Failed to update board name"));
    }
    if let Some(description) = &payload.description {
        ops.push((Request::SetBoardDescription { board_id: payload.board_id, description: description.clone() },
            "Failed to update board description"));
    }
    let ghost expected = board_update_changes(*payload);
    assert(ops@ =~= expected);
    let ghost body = Body::Changes(ops, StatusCode::OK);
    let r = run_gated(t, Locate::Board(payload.board_id), BoardUserRole::Owner,
        "Only board owners can update the board", Body::Changes(ops, StatusCode::OK));
    assert((|at: int, board: BoardId| work(t@, at, board, body)) =~= (|at: int, board: BoardId| changes(t@, at, expected, StatusCode::OK)));
    r
}

/// The answer of the board details endpoint after the transcript `t`.
pub open spec fn get_board_details_answer(board_id: BoardId, t: Seq<Outcome>) -> ApiStepView {
    gated(t, Locate::Board(board_id), BoardUserRole::Viewer, "No access to this board"@,
        |at: int, board: BoardId| work(t, at, board, Body::BoardDetails(board_id)))
}

/// Shows a board's name and description to any of its members.
pub fn get_board_details(board_id: BoardId, t: &[Outcome]) -> (r: ApiStep)
    ensures
        r@ == get_board_details_answer(board_id, t@),
{
    run_gated(t, Locate::Board(board_id), BoardUserRole::Viewer, "No access to this board", Body::BoardDetails(board_id))
}

/// A board is renamed or redescribed only for its owners; answering a
/// deletion and showing a board never ask for a change; an update that
/// names no field is refused, whatever the transcript; a board is created
/// only for an authenticated caller, and for that caller.
pub proof fn law_board_endpoints(
    create: BoardCreateRequest,
    delete: BoardDeleteRequest,
    update: BoardUpdateRequest,
    board_id: BoardId,
    t: Seq<Outcome>,
)
    ensures
        asks_change(update_board_details_answer(update, t)) ==> caller_authorized(t, Locate::Board(update.board_id), BoardUserRole::Owner),
        !asks_change(delete_board_answer(delete, t)),
        !asks_change(get_board_details_answer(board_id, t)),
        asks_change(create_board_answer(create, t)) ==> t.len() > 0 && bearer_accepted(t[0]),
        create_board_answer(create, t) matches Step::Perform(Request::CreateBoard { user_id, .. })
            ==> user_id == bearer_subject(t[0]),
        update.name is None && update.description is None
            ==> update_board_details_answer(update, t) == fail(StatusCode::BAD_REQUEST, "No fields to update"@),
{
    lemma_gate(t, Locate::Board(update.board_id), BoardUserRole::Owner, "Only board owners can update the board"@);
    lemma_gate(t, Locate::Board(delete.board_id), BoardUserRole::Owner, "Only board owners can delete the board"@);
    lemma_gate(t, Locate::Board(board_id), BoardUserRole::Viewer, "No access to this board"@);
}

/// Where each field's change stands among the changes of `board_update_changes`,
/// and that every change there is the change of a field named, with the
/// value sent.
proof fn lemma_board_update_changes(p: BoardUpdateRequest)
    ensures
        forall|i: int| 0 <= i < board_update_changes(p).len() ==> {
            let r = #[trigger] board_update_changes(p)[i].0;
            &&& r.is_change()
            &&& {
            ||| p.name is Some && r == (Request::SetBoardName { board_id: p.board_id, name: p.name->Some_0 })
            ||| p.description is Some && r == (Request::SetBoardDescription { board_id: p.board_id, description: p.description->Some_0 })
            }
        },
        p.name is Some ==> board_update_changes(p).len() > 0 && board_update_changes(p)[0].0 == (Request::SetBoardName { board_id: p.board_id, name: p.name->Some_0 }),
        p.description is Some ==> ({
            let i = if p.name is Some { 1int } else { 0int };
            i < board_update_changes(p).len() && board_update_changes(p)[i].0 == (Request::SetBoardDescription { board_id: p.board_id, description: p.description->Some_0 })
        }),
{
}

/// A successful update asked, at some earlier point, for its change
/// number `i`.
proof fn lemma_update_board_asked(p: BoardUpdateRequest, t: Seq<Outcome>, i: int)
    requires
        !(p.name is None && p.description is None),
        0 <= i < board_update_changes(p).len(),
        update_board_details_answer(p, t) == succeed(ReplyView::Status(StatusCode::OK)),
    ensures
        exists|k: int| 0 <= k < t.len() && #[trigger] update_board_details_answer(p, t.take(k))
            == ApiStepView::Perform(board_update_changes(p)[i].0),
{
    let loc = Locate::Board(p.board_id);
    let ops = board_update_changes(p);
    law_gated_changes(t, loc, BoardUserRole::Owner, "Only board owners can update the board"@, ops, StatusCode::OK);
    assert(update_board_details_answer(p, t) == gated_changes(t, loc, BoardUserRole::Owner, "Only board owners can update the board"@, ops, StatusCode::OK));
    assert(ops[i] == ops[i]);
    let k = choose|k: int| 0 <= k < t.len() && #[trigger] gated_changes(t.take(k), loc, BoardUserRole::Owner,
        "Only board owners can update the board"@, ops, StatusCode::OK) == ApiStepView::Perform(ops[i].0);
    assert(update_board_details_answer(p, t.take(k)) == gated_changes(t.take(k), loc, BoardUserRole::Owner, "Only board owners can update the board"@, ops, StatusCode::OK));
}

/// A board update asks for no change but those of the fields it names, each
/// for the board named and with the value sent: the name sent, the
/// description sent.  Once the caller's role on the board was fetched, an
/// update that names a field asks an owner for a change and refuses anyone
/// else; and `OK` is answered only after the change of every named field
/// was asked for.
pub proof fn law_update_board_details(p: BoardUpdateRequest, t: Seq<Outcome>)
    ensures
        forall|r: Request| update_board_details_answer(p, t) == ApiStepView::Perform(r) && r.is_change() ==> {
            ||| p.name is Some && r == (Request::SetBoardName { board_id: p.board_id, name: p.name->Some_0 })
            ||| p.description is Some && r == (Request::SetBoardDescription { board_id: p.board_id, description: p.description->Some_0 })
        },
        role_just_fetched(t, Locate::Board(p.board_id)) && !(p.name is None && p.description is None)
            ==> (asks_change(update_board_details_answer(p, t)) <==> caller_authorized(t, Locate::Board(p.board_id), BoardUserRole::Owner)),
        update_board_details_answer(p, t) == succeed(ReplyView::Status(StatusCode::OK)) ==> {
            &&& p.name is Some ==> exists|k: int| 0 <= k < t.len() && #[trigger] update_board_details_answer(p, t.take(k))
                == ApiStepView::Perform(Request::SetBoardName { board_id: p.board_id, name: p.name->Some_0 })
            &&& p.description is Some ==> exists|k: int| 0 <= k < t.len() && #[trigger] update_board_details_answer(p, t.take(k))
                == ApiStepView::Perform(Request::SetBoardDescription { board_id: p.board_id, description: p.description->Some_0 })
        },
{
    if !(p.name is None && p.description is None) {
        let loc = Locate::Board(p.board_id);
        let ops = board_update_changes(p);
        lemma_board_update_changes(p);
        law_gated_changes(t, loc, BoardUserRole::Owner, "Only board owners can update the board"@, ops, StatusCode::OK);
        assert(update_board_details_answer(p, t) == gated_changes(t, loc, BoardUserRole::Owner, "Only board owners can update the board"@, ops, StatusCode::OK));
        assert forall|r: Request| update_board_details_answer(p, t) == ApiStepView::Perform(r) && r.is_change() implies {
            ||| p.name is Some && r == (Request::SetBoardName { board_id: p.board_id, name: p.name->Some_0 })
            ||| p.description is Some && r == (Request::SetBoardDescription { board_id: p.board_id, description: p.description->Some_0 })
        } by {
            let i = choose|i: int| 0 <= i < ops.len() && ops[i].0 == r;
            assert(ops[i].0 == r);
        }
        if role_just_fetched(t, loc) && caller_authorized(t, loc, BoardUserRole::Owner) {
            assert(ops[0].0.is_change());
        }
        if update_board_details_answer(p, t) == succeed(ReplyView::Status(StatusCode::OK)) {
            if p.name is Some {
                lemma_update_board_asked(p, t, 0);
            }
            if p.description is Some {
                lemma_update_board_asked(p, t, if p.name is Some { 1int } else { 0int });
            }
        }
    }
}

/// A board deletion is answered `OK` only for an owner of the board; once
/// the caller's role on the board was fetched, it is answered `OK` exactly
/// when the caller owns the board, and no change is ever asked for.
pub proof fn law_delete_board(p: BoardDeleteRequest, t: Seq<Outcome>)
    ensures
        delete_board_answer(p, t) == succeed(ReplyView::Status(StatusCode::OK))
            ==> caller_authorized(t, Locate::Board(p.board_id), BoardUserRole::Owner),
        role_just_fetched(t, Locate::Board(p.board_id)) ==> (delete_board_answer(p, t) == succeed(ReplyView::Status(StatusCode::OK))
            <==> caller_authorized(t, Locate::Board(p.board_id), BoardUserRole::Owner)),
        !asks_change(delete_board_answer(p, t)),
{
    let loc = Locate::Board(p.board_id);
    let forbidden = "Only board owners can delete the board"@;
    lemma_gate(t, loc, BoardUserRole::Owner, forbidden);
    if role_just_fetched(t, loc) {
        lemma_gate_decides(t, loc, BoardUserRole::Owner, forbidden);
    }
}

/// A board is created for the authenticated caller, with the name sent, and
/// then, when a description was sent, exactly that description is set on
/// the new board; nothing else is asked to change.  The new board's id is
/// answered only after the creation was asked for and made with that id,
/// and, when a description was sent, after it was asked to be set.
pub proof fn law_create_board(p: BoardCreateRequest, t: Seq<Outcome>)
    ensures
        forall|r: Request| create_board_answer(p, t) == ApiStepView::Perform(r) && r.is_change() ==> {
            ||| r == (Request::CreateBoard { user_id: bearer_subject(t[0]), name: p.name })
            ||| p.description is Some && t[1] is Created && t[1]->Created_0 is Ok
                && r == (Request::SetBoardDescription { board_id: t[1]->Created_0->Ok_0, description: p.description->Some_0 })
        },
        forall|id: i64| create_board_answer(p, t) == succeed(ReplyView::Id(id)) ==> {
            &&& t.len() > 1
            &&& create_board_answer(p, t.take(1)) == ApiStepView::Perform(Request::CreateBoard { user_id: bearer_subject(t[0]), name: p.name })
            &&& t[1] == Outcome::Created(Ok(id))
            &&& p.description is Some ==> t.len() > 2 && create_board_answer(p, t.take(2))
                == ApiStepView::Perform(Request::SetBoardDescription { board_id: id, description: p.description->Some_0 })
        },
{
    if let Step::Respond(Ok(ReplyView::Id(id))) = create_board_answer(p, t) {
        let u1 = t.take(1);
        assert(u1[0] == t[0]);
        if p.description is Some {
            let u2 = t.take(2);
            assert(u2[0] == t[0]);
            assert(u2[1] == t[1]);
        }
    }
}


/// A member of the board is shown, once the board was fetched, the name and
/// description it was fetched with, and told that it was not found when
/// there is none; before that the board asked for is fetched; once the
/// caller's role was fetched, a caller who is no member is refused as
/// forbidden.
pub proof fn law_get_board_details(board_id: BoardId, t: Seq<Outcome>, at: int, found: Board)
    ensures
        caller_authorized(t, Locate::Board(board_id), BoardUserRole::Viewer)
            && locate(t, Locate::Board(board_id)) == (LocatedView::Found { board: board_id, at }) && t.len() == at + 1
            ==> get_board_details_answer(board_id, t) == ApiStepView::Perform(Request::Board { board_id }),
        caller_authorized(t, Locate::Board(board_id), BoardUserRole::Viewer)
            && locate(t, Locate::Board(board_id)) == (LocatedView::Found { board: board_id, at }) && t.len() > at + 1
            && t[at + 1] == Outcome::Board(Ok(Some(found)))
            ==> get_board_details_answer(board_id, t)
                == succeed(ReplyView::Board(BoardDetails { name: found.name, description: found.description })),
        caller_authorized(t, Locate::Board(board_id), BoardUserRole::Viewer)
            && locate(t, Locate::Board(board_id)) == (LocatedView::Found { board: board_id, at }) && t.len() > at + 1
            && t[at + 1] == Outcome::Board(Ok(None))
            ==> get_board_details_answer(board_id, t) == fail(StatusCode::NOT_FOUND, "Board not found"@),
        role_just_fetched(t, Locate::Board(board_id)) && !caller_authorized(t, Locate::Board(board_id), BoardUserRole::Viewer)
            ==> (get_board_details_answer(board_id, t) matches Step::Respond(Err((code, _))) && code == StatusCode::FORBIDDEN),
{
    if role_just_fetched(t, Locate::Board(board_id)) {
        lemma_gate_decides(t, Locate::Board(board_id), BoardUserRole::Viewer, "No access to this board"@);
    }
}

} // verus!
