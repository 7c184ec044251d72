//! Card endpoints.
use vstd::prelude::*;
use crate::boards::api::gate::{
    asks_change, caller_authorized, changes, fail, gated, gated_changes, gated_create, lemma_gate, law_gated_changes,
    law_gated_create, lemma_gate_decides, locate, role_just_fetched, run_gated, succeed, work, ApiStep, ApiStepView, Body, Locate,
    LocatedView, ReplyView,
};
use crate::boards::board::clone_opt_string;
use crate::boards::cards::Card;
use crate::boards::role::BoardUserRole;
use crate::flow::{Outcome, Request, Step};
use crate::text::owned;
use crate::http::StatusCode;
use crate::boards::board::BoardId;
use crate::boards::cards::CardId;
use crate::boards::groups::GroupId;

verus! {

#[derive(Debug, PartialEq)]
pub struct CardCreateRequest {
    pub group_id: GroupId,
    pub title: String,
    pub content: Option<String>,
    pub position: String,
}

#[derive(Debug, PartialEq)]
pub struct CardDeleteRequest {
    pub card_id: CardId,
}

/// The payload of a card update; at least one field must be given.
/// `content: Some(None)` clears the content.
#[derive(Debug, PartialEq)]
pub struct CardUpdateRequest {
    pub card_id: CardId,
    pub title: Option<String>,
    pub content: Option<Option<String>>,
    pub position: Option<String>,
}

/// What is shown of a card.
#[derive(Debug, PartialEq)]
pub struct CardDetails {
    pub card_id: CardId,
    pub board_id: BoardId,
    pub group_id: GroupId,
    pub title: String,
    pub content: Option<String>,
    pub position: String,
}

/// A card in a group's list of cards.
#[derive(Debug, PartialEq)]
pub struct CardSummary {
    pub card_id: CardId,
    pub board_id: BoardId,
    pub group_id: GroupId,
    pub title: String,
    pub content: Option<String>,
    pub position: String,
}


/// What a member below editor is told when changing cards.
pub open spec fn cards_forbidden() -> Seq<char> {
    "Only board owners or editors can modify cards"@
}

/// The answer of the card creation endpoint after the transcript `t`.
pub open spec fn create_card_answer(p: CardCreateRequest, t: Seq<Outcome>) -> ApiStepView {
    gated(t, Locate::Group(p.group_id), BoardUserRole::Editor, cards_forbidden(),
        |at: int, board: BoardId| work(t, at, board, Body::Create(
            Request::CreateCard { card: Card { group_id: p.group_id, title: p.title, content: p.content, position: p.position } },
            "Failed to create card")))
}

/// Creates a card in a group; editors and owners of the group's board may.
pub fn create_card(payload: &CardCreateRequest, t: &[Outcome]) -> (r: ApiStep)
    ensures
        r@ == create_card_answer(*payload, t@),
{
    let card = Card {
        group_id: payload.group_id,
        title: payload.title.clone(),
        content: clone_opt_string(&payload.content),
        position: payload.position.clone(),
    };
    run_gated(t, Locate::Group(payload.group_id), BoardUserRole::Editor,
        "Only board owners or editors can modify cards",
        Body::Create(Request::CreateCard { card }, "Failed to create card"))
}

/// The answer of the card deletion endpoint after the transcript `t`.
pub open spec fn delete_card_answer(p: CardDeleteRequest, t: Seq<Outcome>) -> ApiStepView {
    gated(t, Locate::CardBoard(p.card_id), BoardUserRole::Editor, cards_forbidden(),
        |at: int, board: BoardId| changes(t, at,
            seq![(Request::DeleteCard { card_id: p.card_id }, "Failed to delete card")], StatusCode::OK))
}

/// Deletes a card; editors and owners of the card's board may.
pub fn delete_card(payload: &CardDeleteRequest, t: &[Outcome]) -> (r: ApiStep)
    ensures
        r@ == delete_card_answer(*payload, t@),
{
    let mut ops: Vec<(Request, &'static str)> = Vec::new();
    ops.push((Request::DeleteCard { card_id: payload.card_id }, "Failed to delete card"));
    let ghost expected = seq![(Request::DeleteCard { card_id: payload.card_id }, "Failed to delete card")];
    assert(ops@ =~= expected);
    let ghost body = Body::Changes(ops, StatusCode::OK);
    let r = run_gated(t, Locate::CardBoard(payload.card_id), BoardUserRole::Editor,
        "Only board owners or editors can modify cards", Body::Changes(ops, StatusCode::OK));
    assert((|at: int, board: BoardId| work(t@, at, board, body)) =~= (|at: int, board: BoardId| changes(t@, at, expected, StatusCode::OK)));
    r
}

/// The changes a card update asks for, in the order they are made.
pub open spec fn card_update_changes(p: CardUpdateRequest) -> Seq<(Request, &'static str)> {
    let title = match p.title {
        Some(title) => seq![(Request::SetCardTitle { card_id: p.card_id, title }, "Failed to update card title")],
        None => Seq::empty(),
    };
    let content = match p.content {
        Some(content) => seq![(Request::SetCardContent { card_id: p.card_id, content }, "Failed to update card content")],
        None => Seq::empty(),
    };
    let position = match p.position {
        Some(position) => seq![(Request::SetCardPosition { card_id: p.card_id, position }, "Failed to update card position")],
        None => Seq::empty(),
    };
    title + content + position
}

/// The answer of the card update endpoint after the transcript `t`.  An
/// update that names no field is refused before anything else.
pub open spec fn update_card_answer(p: CardUpdateRequest, t: Seq<Outcome>) -> ApiStepView {
    if p.title is None && p.content is None && p.position is None {
        fail(StatusCode::BAD_REQUEST, "No fields to update"@)
    } else {
        gated(t, Locate::CardBoard(p.card_id), BoardUserRole::Editor, cards_forbidden(),
            |at: int, board: BoardId| changes(t, at, card_update_changes(p), StatusCode::OK))
    }
}

/// Updates the given fields of a card; editors and owners of the card's board may.
pub fn update_card(payload: &CardUpdateRequest, t: &[Outcome]) -> (r: ApiStep)
    ensures
        r@ == update_card_answer(*payload, t@),
{
    if payload.title.is_none() && payload.content.is_none() && payload.position.is_none() {
        return Step::Respond(Err((StatusCode::BAD_REQUEST, owned("No fields to update"))));
    }
    let mut ops: Vec<(Request, &'static str)> = Vec::new();
    if let Some(title) = &payload.title {
        ops.push((Request::SetCardTitle { card_id: payload.card_id, title: title.clone() }, "Failed to update card title"));
    }
    if let Some(content) = &payload.content {
        ops.push((Request::SetCardContent { card_id: payload.card_id, content: clone_opt_string(content) }, "Failed to update card content"));
    }
    if let Some(position) = &payload.position {
        ops.push((Request::SetCardPosition { card_id: payload.card_id, position: position.clone() }, "Failed to update card position"));
    }
    let ghost expected = card_update_changes(*payload);
    assert(ops@ =~= expected);
    let ghost body = Body::Changes(ops, StatusCode::OK);
    let r = run_gated(t, Locate::CardBoard(payload.card_id), BoardUserRole::Editor,
        "Only board owners or editors can modify cards", Body::Changes(ops, StatusCode::OK));
    assert((|at: int, board: BoardId| work(t@, at, board, body)) =~= (|at: int, board: BoardId| changes(t@, at, expected, StatusCode::OK)));
    r
}

/// The answer of the card details endpoint after the transcript `t`.
pub open spec fn get_card_details_answer(card_id: CardId, t: Seq<Outcome>) -> ApiStepView {
    gated(t, Locate::Card(card_id), BoardUserRole::Viewer, "No access to this board"@,
        |at: int, board: BoardId| work(t, at, board, Body::CardDetails(card_id)))
}

/// Shows a card to any member of its board.
pub fn get_card_details(card_id: CardId, t: &[Outcome]) -> (r: ApiStep)
    ensures
        r@ == get_card_details_answer(card_id, t@),
{
    run_gated(t, Locate::Card(card_id), BoardUserRole::Viewer, "No access to this board", Body::CardDetails(card_id))
}

/// The answer of the endpoint listing a group's cards after the transcript `t`.
pub open spec fn list_cards_for_group_answer(group_id: GroupId, t: Seq<Outcome>) -> ApiStepView {
    gated(t, Locate::Group(group_id), BoardUserRole::Viewer, "No access to this board"@,
        |at: int, board: BoardId| work(t, at, board, Body::CardsOfGroup(group_id)))
}

/// Lists the cards of a group, ordered by position, to any member of its board.
pub fn list_cards_for_group(group_id: GroupId, t: &[Outcome]) -> (r: ApiStep)
    ensures
        r@ == list_cards_for_group_answer(group_id, t@),
{
    run_gated(t, Locate::Group(group_id), BoardUserRole::Viewer, "No access to this board", Body::CardsOfGroup(group_id))
}

/// Cards are created, changed and deleted only for editors and owners of
/// their board; showing and listing cards never asks for a change; an update
/// that names no field is refused, whatever the transcript.
pub proof fn law_card_endpoints(
    create: CardCreateRequest,
    delete: CardDeleteRequest,
    update: CardUpdateRequest,
    card_id: CardId,
    group_id: GroupId,
    t: Seq<Outcome>,
)
    ensures
        asks_change(create_card_answer(create, t)) ==> caller_authorized(t, Locate::Group(create.group_id), BoardUserRole::Editor),
        asks_change(delete_card_answer(delete, t)) ==> caller_authorized(t, Locate::CardBoard(delete.card_id), BoardUserRole::Editor),
        asks_change(update_card_answer(update, t)) ==> caller_authorized(t, Locate::CardBoard(update.card_id), BoardUserRole::Editor),
        !asks_change(get_card_details_answer(card_id, t)),
        !asks_change(list_cards_for_group_answer(group_id, t)),
        update.title is None && update.content is None && update.position is None
            ==> update_card_answer(update, t) == fail(StatusCode::BAD_REQUEST, "No fields to update"@),
{
    lemma_gate(t, Locate::Group(create.group_id), BoardUserRole::Editor, cards_forbidden());
    lemma_gate(t, Locate::CardBoard(delete.card_id), BoardUserRole::Editor, cards_forbidden());
    lemma_gate(t, Locate::CardBoard(update.card_id), BoardUserRole::Editor, cards_forbidden());
    lemma_gate(t, Locate::Card(card_id), BoardUserRole::Viewer, "No access to this board"@);
    lemma_gate(t, Locate::Group(group_id), BoardUserRole::Viewer, "No access to this board"@);
}

/// A card is created in the group named, with the title, content and
/// position sent, and nothing else is asked to change; once the caller's
/// role on the group's board was fetched, an editor or owner is asked for
/// the creation and anyone else is refused; the new card's id is answered
/// only after the creation was asked for and made with that id.
pub proof fn law_create_card(p: CardCreateRequest, t: Seq<Outcome>)
    ensures
        forall|r: Request| create_card_answer(p, t) == ApiStepView::Perform(r) && r.is_change()
            ==> r == (Request::CreateCard { card: Card { group_id: p.group_id, title: p.title, content: p.content, position: p.position } }),
        role_just_fetched(t, Locate::Group(p.group_id)) ==> (asks_change(create_card_answer(p, t))
            <==> caller_authorized(t, Locate::Group(p.group_id), BoardUserRole::Editor)),
        forall|id: i64| create_card_answer(p, t) == succeed(ReplyView::Id(id)) ==> exists|k: int| 0 <= k < t.len()
            && #[trigger] create_card_answer(p, t.take(k)) == ApiStepView::Perform(Request::CreateCard {
                card: Card { group_id: p.group_id, title: p.title, content: p.content, position: p.position } })
            && t[k] == Outcome::Created(Ok(id)),
{
    let loc = Locate::Group(p.group_id);
    let req = Request::CreateCard { card: Card { group_id: p.group_id, title: p.title, content: p.content, position: p.position } };
    let msg = "Failed to create card";
    law_gated_create(t, loc, BoardUserRole::Editor, cards_forbidden(), req, msg);
    assert(create_card_answer(p, t) == gated_create(t, loc, BoardUserRole::Editor, cards_forbidden(), req, msg));
    if let Step::Respond(Ok(ReplyView::Id(id))) = create_card_answer(p, t) {
        let k = choose|k: int| 0 <= k < t.len()
            && #[trigger] gated_create(t.take(k), loc, BoardUserRole::Editor, cards_forbidden(), req, msg) == ApiStepView::Perform(req)
            && t[k] == Outcome::Created(Ok(id));
        assert(create_card_answer(p, t.take(k)) == gated_create(t.take(k), loc, BoardUserRole::Editor, cards_forbidden(), req, msg));
    }
}

/// A card deletion asks for no change but the deletion of the card named;
/// once the caller's role on its board was fetched, an editor or owner is
/// asked for it and anyone else is refused; `OK` is answered only after the
/// deletion was asked for.
pub proof fn law_delete_card(p: CardDeleteRequest, t: Seq<Outcome>)
    ensures
        forall|r: Request| delete_card_answer(p, t) == ApiStepView::Perform(r) && r.is_change()
            ==> r == (Request::DeleteCard { card_id: p.card_id }),
        role_just_fetched(t, Locate::CardBoard(p.card_id)) ==> (asks_change(delete_card_answer(p, t))
            <==> caller_authorized(t, Locate::CardBoard(p.card_id), BoardUserRole::Editor)),
        delete_card_answer(p, t) == succeed(ReplyView::Status(StatusCode::OK)) ==> exists|k: int| 0 <= k < t.len()
            && #[trigger] delete_card_answer(p, t.take(k)) == ApiStepView::Perform(Request::DeleteCard { card_id: p.card_id }),
{
    let loc = Locate::CardBoard(p.card_id);
    let ops = seq![(Request::DeleteCard { card_id: p.card_id }, "Failed to delete card")];
    law_gated_changes(t, loc, BoardUserRole::Editor, cards_forbidden(), ops, StatusCode::OK);
    assert(delete_card_answer(p, t) == gated_changes(t, loc, BoardUserRole::Editor, cards_forbidden(), ops, StatusCode::OK));
    if delete_card_answer(p, t) == succeed(ReplyView::Status(StatusCode::OK)) {
        assert(ops[0].0 == Request::DeleteCard { card_id: p.card_id });
        let k = choose|k: int| 0 <= k < t.len() && #[trigger] gated_changes(t.take(k), loc, BoardUserRole::Editor,
            cards_forbidden(), ops, StatusCode::OK) == ApiStepView::Perform(ops[0].0);
        assert(delete_card_answer(p, t.take(k)) == gated_changes(t.take(k), loc, BoardUserRole::Editor, cards_forbidden(), ops, StatusCode::OK));
    }
}

/// Where a card update's change of each field stands among its changes,
/// and that every change it asks for is the change of a field it names,
/// with the value sent, for the card named.
proof fn lemma_card_update_changes(p: CardUpdateRequest)
    ensures
        forall|i: int| 0 <= i < card_update_changes(p).len() ==> {
            let r = #[trigger] card_update_changes(p)[i].0;
            &&& r.is_change()
            &&& {
                ||| p.title is Some && r == (Request::SetCardTitle { card_id: p.card_id, title: p.title->Some_0 })
                ||| p.content is Some && r == (Request::SetCardContent { card_id: p.card_id, content: p.content->Some_0 })
                ||| p.position is Some && r == (Request::SetCardPosition { card_id: p.card_id, position: p.position->Some_0 })
            }
        },
        p.title is Some ==> card_update_changes(p).len() > 0
            && card_update_changes(p)[0].0 == (Request::SetCardTitle { card_id: p.card_id, title: p.title->Some_0 }),
        p.content is Some ==> ({
            let i = if p.title is Some { 1int } else { 0int };
            i < card_update_changes(p).len()
                && card_update_changes(p)[i].0 == (Request::SetCardContent { card_id: p.card_id, content: p.content->Some_0 })
        }),
        p.position is Some ==> ({
            let i = (if p.title is Some { 1int } else { 0int }) + (if p.content is Some { 1int } else { 0int });
            i < card_update_changes(p).len()
                && card_update_changes(p)[i].0 == (Request::SetCardPosition { card_id: p.card_id, position: p.position->Some_0 })
        }),
{
}

/// A card update asks for no change but those of the fields it names, each
/// for the card named and with the value sent: the title sent, the content
/// sent (`None` clears it), the position sent.  Once the caller's role on
/// the card's board was fetched, an update that names a field asks an
/// editor or owner for a change and refuses anyone else; and `OK` is
/// answered only after the change of every named field was asked for.
pub proof fn law_update_card(p: CardUpdateRequest, t: Seq<Outcome>)
    ensures
        forall|r: Request| update_card_answer(p, t) == ApiStepView::Perform(r) && r.is_change() ==> {
            ||| p.title is Some && r == (Request::SetCardTitle { card_id: p.card_id, title: p.title->Some_0 })
            ||| p.content is Some && r == (Request::SetCardContent { card_id: p.card_id, content: p.content->Some_0 })
            ||| p.position is Some && r == (Request::SetCardPosition { card_id: p.card_id, position: p.position->Some_0 })
        },
        role_just_fetched(t, Locate::CardBoard(p.card_id)) && !(p.title is None && p.content is None && p.position is None)
            ==> (asks_change(update_card_answer(p, t)) <==> caller_authorized(t, Locate::CardBoard(p.card_id), BoardUserRole::Editor)),
        update_card_answer(p, t) == succeed(ReplyView::Status(StatusCode::OK)) ==> {
            &&& p.title is Some ==> exists|k: int| 0 <= k < t.len() && #[trigger] update_card_answer(p, t.take(k))
                == ApiStepView::Perform(Request::SetCardTitle { card_id: p.card_id, title: p.title->Some_0 })
            &&& p.content is Some ==> exists|k: int| 0 <= k < t.len() && #[trigger] update_card_answer(p, t.take(k))
                == ApiStepView::Perform(Request::SetCardContent { card_id: p.card_id, content: p.content->Some_0 })
            &&& p.position is Some ==> exists|k: int| 0 <= k < t.len() && #[trigger] update_card_answer(p, t.take(k))
                == ApiStepView::Perform(Request::SetCardPosition { card_id: p.card_id, position: p.position->Some_0 })
        },
{
    if !(p.title is None && p.content is None && p.position is None) {
        let loc = Locate::CardBoard(p.card_id);
        let ops = card_update_changes(p);
        lemma_card_update_changes(p);
        law_gated_changes(t, loc, BoardUserRole::Editor, cards_forbidden(), ops, StatusCode::OK);
        assert(update_card_answer(p, t) == gated_changes(t, loc, BoardUserRole::Editor, cards_forbidden(), ops, StatusCode::OK));
        assert forall|r: Request| update_card_answer(p, t) == ApiStepView::Perform(r) && r.is_change() implies {
            ||| p.title is Some && r == (Request::SetCardTitle { card_id: p.card_id, title: p.title->Some_0 })
            ||| p.content is Some && r == (Request::SetCardContent { card_id: p.card_id, content: p.content->Some_0 })
            ||| p.position is Some && r == (Request::SetCardPosition { card_id: p.card_id, position: p.position->Some_0 })
        } by {
            let i = choose|i: int| 0 <= i < ops.len() && ops[i].0 == r;
            assert(ops[i].0 == r);
        }
        if role_just_fetched(t, loc) && caller_authorized(t, loc, BoardUserRole::Editor) {
            assert(ops[0].0.is_change());
        }
        if update_card_answer(p, t) == succeed(ReplyView::Status(StatusCode::OK)) {
            let nt = if p.title is Some { 1int } else { 0int };
            let nc = if p.content is Some { 1int } else { 0int };
            if p.title is Some {
                lemma_update_card_asked(p, t, 0);
            }
            if p.content is Some {
                lemma_update_card_asked(p, t, nt);
            }
            if p.position is Some {
                lemma_update_card_asked(p, t, nt + nc);
            }
        }
    }
}

/// A successful card update asked, at some earlier point, for its change
/// number `i`.
proof fn lemma_update_card_asked(p: CardUpdateRequest, t: Seq<Outcome>, i: int)
    requires
        !(p.title is None && p.content is None && p.position is None),
        0 <= i < card_update_changes(p).len(),
        update_card_answer(p, t) == succeed(ReplyView::Status(StatusCode::OK)),
    ensures
        exists|k: int| 0 <= k < t.len() && #[trigger] update_card_answer(p, t.take(k))
            == ApiStepView::Perform(card_update_changes(p)[i].0),
{
    let loc = Locate::CardBoard(p.card_id);
    let ops = card_update_changes(p);
    law_gated_changes(t, loc, BoardUserRole::Editor, cards_forbidden(), ops, StatusCode::OK);
    assert(update_card_answer(p, t) == gated_changes(t, loc, BoardUserRole::Editor, cards_forbidden(), ops, StatusCode::OK));
    assert(ops[i] == ops[i]);
    let k = choose|k: int| 0 <= k < t.len() && #[trigger] gated_changes(t.take(k), loc, BoardUserRole::Editor,
        cards_forbidden(), ops, StatusCode::OK) == ApiStepView::Perform(ops[i].0);
    assert(update_card_answer(p, t.take(k)) == gated_changes(t.take(k), loc, BoardUserRole::Editor, cards_forbidden(), ops, StatusCode::OK));
}

/// A member of the card's board is shown the card that was fetched: its id,
/// its board, and the group, title, content and position it was fetched
/// with; once the caller's role was fetched, a caller who is no member is
/// refused as forbidden.
pub proof fn law_get_card_details(card_id: CardId, t: Seq<Outcome>, board: BoardId, at: int, card: Card)
    ensures
        caller_authorized(t, Locate::Card(card_id), BoardUserRole::Viewer) && locate(t, Locate::Card(card_id)) == (LocatedView::Found { board, at })
            && t[1] == Outcome::Card(Ok(Some(card)))
            ==> get_card_details_answer(card_id, t) == succeed(ReplyView::Card(CardDetails { card_id, board_id: board, group_id: card.group_id, title: card.title, content: card.content, position: card.position })),
        role_just_fetched(t, Locate::Card(card_id)) && !caller_authorized(t, Locate::Card(card_id), BoardUserRole::Viewer)
            ==> (get_card_details_answer(card_id, t) matches Step::Respond(Err((code, _))) && code == StatusCode::FORBIDDEN),
{
    if role_just_fetched(t, Locate::Card(card_id)) {
        lemma_gate_decides(t, Locate::Card(card_id), BoardUserRole::Viewer, "No access to this board"@);
    }
}

/// A member of the group's board is answered, once the group's cards were
/// fetched, with exactly those cards, in the order fetched, each with its
/// id, the board, the group asked for, and its title, content and
/// position; before that the cards of that group are asked for.
pub proof fn law_list_cards_for_group(group_id: GroupId, t: Seq<Outcome>, board: BoardId, at: int, v: Vec<(CardId, Card)>)
    ensures
        caller_authorized(t, Locate::Group(group_id), BoardUserRole::Viewer) && locate(t, Locate::Group(group_id)) == (LocatedView::Found { board, at })
            && t.len() == at + 1
            ==> list_cards_for_group_answer(group_id, t) == ApiStepView::Perform(Request::CardsOfGroup { group_id }),
        caller_authorized(t, Locate::Group(group_id), BoardUserRole::Viewer) && locate(t, Locate::Group(group_id)) == (LocatedView::Found { board, at })
            && t.len() > at + 1 && t[at + 1] == Outcome::Cards(Ok(v))
            ==> list_cards_for_group_answer(group_id, t) == succeed(ReplyView::Cards(Seq::new(v@.len(), |i: int| CardSummary { card_id: v@[i].0, board_id: board, group_id, title: v@[i].1.title, content: v@[i].1.content, position: v@[i].1.position }))),
        role_just_fetched(t, Locate::Group(group_id)) && !caller_authorized(t, Locate::Group(group_id), BoardUserRole::Viewer)
            ==> (list_cards_for_group_answer(group_id, t) matches Step::Respond(Err((code, _))) && code == StatusCode::FORBIDDEN),
{
    if role_just_fetched(t, Locate::Group(group_id)) {
        lemma_gate_decides(t, Locate::Group(group_id), BoardUserRole::Viewer, "No access to this board"@);
    }
    assert(v@.map_values(|p: (CardId, Card)| crate::boards::api::gate::card_summary(p, board, group_id)) =~= Seq::new(v@.len(), |i: int| CardSummary { card_id: v@[i].0, board_id: board, group_id, title: v@[i].1.title, content: v@[i].1.content, position: v@[i].1.position }));
}

} // verus!
