//! Card metadata endpoints.
use vstd::prelude::*;
use crate::boards::api::gate::{
    asks_change, caller_authorized, changes, fail, gated, gated_changes, gated_create, lemma_gate, law_gated_changes,
    law_gated_create, lemma_gate_decides, locate, role_just_fetched, run_gated, succeed, work, ApiStep, ApiStepView, Body, Locate,
    LocatedView, ReplyView,
};
use crate::boards::role::BoardUserRole;
use crate::flow::{Outcome, Request, Step};
use crate::http::StatusCode;
use crate::text::owned;
use crate::boards::board::clone_opt_string;
use crate::boards::card_metadata::CardMetadata;
use crate::boards::board::BoardId;
use crate::boards::card_metadata::MetaId;
use crate::boards::cards::CardId;

verus! {

#[derive(Debug, PartialEq)]
pub struct MetadataCreateRequest {
    pub card_id: CardId,
    pub key: String,
    pub value: Option<String>,
}

#[derive(Debug, PartialEq)]
pub struct MetadataDeleteRequest {
    pub meta_id: MetaId,
}

/// The payload of a metadata update; `value` must be given, and
/// `Some(None)` clears the value.
#[derive(Debug, PartialEq)]
pub struct MetadataUpdateRequest {
    pub meta_id: MetaId,
    pub value: Option<Option<String>>,
}

/// What is shown of a metadata entry.
#[derive(Debug, PartialEq)]
pub struct MetadataDetails {
    pub meta_id: MetaId,
    pub board_id: BoardId,
    pub card_id: CardId,
    pub key: String,
    pub value: Option<String>,
}

/// An entry in a card's list of metadata.
#[derive(Debug, PartialEq)]
pub struct MetadataSummary {
    pub meta_id: MetaId,
    pub board_id: BoardId,
    pub card_id: CardId,
    pub key: String,
    pub value: Option<String>,
}

/// What a member below editor is told when changing card metadata.
pub open spec fn metadata_forbidden() -> Seq<char> {
    "Only board owners or editors can modify card metadata"@
}

/// The answer of the metadata creation endpoint after the transcript `t`.
pub open spec fn create_metadata_answer(p: MetadataCreateRequest, t: Seq<Outcome>) -> ApiStepView {
    gated(t, Locate::CardBoard(p.card_id), BoardUserRole::Editor, metadata_forbidden(),
        |at: int, board: BoardId| work(t, at, board, Body::Create(
            Request::CreateMetadata { metadata: CardMetadata { item_id: p.card_id, key: p.key, value: p.value } },
            "Failed to create metadata")))
}

/// Attaches a metadata entry to a card; editors and owners of its board may.
pub fn create_metadata(payload: &MetadataCreateRequest, t: &[Outcome]) -> (r: ApiStep)
    ensures
        r@ == create_metadata_answer(*payload, t@),
{
    let metadata = CardMetadata { item_id: payload.card_id, key: payload.key.clone(), value: clone_opt_string(&payload.value) };
    run_gated(t, Locate::CardBoard(payload.card_id), BoardUserRole::Editor,
        "Only board owners or editors can modify card metadata",
        Body::Create(Request::CreateMetadata { metadata }, "Failed to create metadata"))
}

/// The answer of the metadata deletion endpoint after the transcript `t`.
pub open spec fn delete_metadata_answer(p: MetadataDeleteRequest, t: Seq<Outcome>) -> ApiStepView {
    gated(t, Locate::MetadataBoard(p.meta_id), BoardUserRole::Editor, metadata_forbidden(),
        |at: int, board: BoardId| changes(t, at,
            seq![(Request::DeleteMetadata { meta_id: p.meta_id }, "Failed to delete metadata")], StatusCode::OK))
}

/// Deletes a metadata entry; editors and owners of its board may.
pub fn delete_metadata(payload: &MetadataDeleteRequest, t: &[Outcome]) -> (r: ApiStep)
    ensures
        r@ == delete_metadata_answer(*payload, t@),
{
    let mut ops: Vec<(Request, &'static str)> = Vec::new();
    ops.push((Request::DeleteMetadata { meta_id: payload.meta_id }, "Failed to delete metadata"));
    let ghost expected = seq![(Request::DeleteMetadata { meta_id: payload.meta_id }, "Failed to delete metadata")];
    assert(ops@ =~= expected);
    let ghost body = Body::Changes(ops, StatusCode::OK);
    let r = run_gated(t, Locate::MetadataBoard(payload.meta_id), BoardUserRole::Editor,
        "Only board owners or editors can modify card metadata", Body::Changes(ops, StatusCode::OK));
    assert((|at: int, board: BoardId| work(t@, at, board, body)) =~= (|at: int, board: BoardId| changes(t@, at, expected, StatusCode::OK)));
    r
}

/// The answer of the metadata update endpoint after the transcript `t`.  An
/// update without a value is refused before anything else.
pub open spec fn update_metadata_value_answer(p: MetadataUpdateRequest, t: Seq<Outcome>) -> ApiStepView {
    match p.value {
        None => fail(StatusCode::BAD_REQUEST, "No fields to update"@),
        Some(value) => gated(t, Locate::MetadataBoard(p.meta_id), BoardUserRole::Editor, metadata_forbidden(),
            |at: int, board: BoardId| changes(t, at,
                seq![(Request::SetMetadataValue { meta_id: p.meta_id, value }, "Failed to update metadata value")],
                StatusCode::OK)),
    }
}

/// Sets the value of a metadata entry; editors and owners of its board may.
pub fn update_metadata_value(payload: &MetadataUpdateRequest, t: &[Outcome]) -> (r: ApiStep)
    ensures
        r@ == update_metadata_value_answer(*payload, t@),
{
    match &payload.value {
        None => Step::Respond(Err((StatusCode::BAD_REQUEST, owned("No fields to update")))),
        Some(value) => {
            let mut ops: Vec<(Request, &'static str)> = Vec::new();
            ops.push((Request::SetMetadataValue { meta_id: payload.meta_id, value: clone_opt_string(value) },
                "Failed to update metadata value"));
            let ghost expected = seq![(Request::SetMetadataValue { meta_id: payload.meta_id, value: *value },
                "Failed to update metadata value")];
            assert(ops@ =~= expected);
            let ghost body = Body::Changes(ops, StatusCode::OK);
            let r = run_gated(t, Locate::MetadataBoard(payload.meta_id), BoardUserRole::Editor,
                "Only board owners or editors can modify card metadata", Body::Changes(ops, StatusCode::OK));
            assert((|at: int, board: BoardId| work(t@, at, board, body)) =~= (|at: int, board: BoardId| changes(t@, at, expected, StatusCode::OK)));
            r
        },
    }
}

/// The answer of the metadata details endpoint after the transcript `t`.
pub open spec fn get_metadata_details_answer(meta_id: MetaId, t: Seq<Outcome>) -> ApiStepView {
    gated(t, Locate::Metadata(meta_id), BoardUserRole::Viewer, "No access to this board"@,
        |at: int, board: BoardId| work(t, at, board, Body::MetadataDetails(meta_id)))
}

/// Shows a metadata entry to any member of its board.
pub fn get_metadata_details(meta_id: MetaId, t: &[Outcome]) -> (r: ApiStep)
    ensures
        r@ == get_metadata_details_answer(meta_id, t@),
{
    run_gated(t, Locate::Metadata(meta_id), BoardUserRole::Viewer, "No access to this board", Body::MetadataDetails(meta_id))
}

/// The answer of the endpoint listing a card's metadata after the transcript `t`.
pub open spec fn list_metadata_for_card_answer(card_id: CardId, t: Seq<Outcome>) -> ApiStepView {
    gated(t, Locate::CardBoard(card_id), BoardUserRole::Viewer, "No access to this board"@,
        |at: int, board: BoardId| work(t, at, board, Body::MetadataOfCard(card_id)))
}

/// Lists the metadata entries of a card to any member of its board.
pub fn list_metadata_for_card(card_id: CardId, t: &[Outcome]) -> (r: ApiStep)
    ensures
        r@ == list_metadata_for_card_answer(card_id, t@),
{
    run_gated(t, Locate::CardBoard(card_id), BoardUserRole::Viewer, "No access to this board", Body::MetadataOfCard(card_id))
}

/// Metadata entries are created, changed and deleted only for editors and
/// owners of their board; showing and listing them never asks for a change;
/// an update without a value is refused, whatever the transcript.
pub proof fn law_metadata_endpoints(
    create: MetadataCreateRequest,
    delete: MetadataDeleteRequest,
    update: MetadataUpdateRequest,
    meta_id: MetaId,
    card_id: CardId,
    t: Seq<Outcome>,
)
    ensures
        asks_change(create_metadata_answer(create, t)) ==> caller_authorized(t, Locate::CardBoard(create.card_id), BoardUserRole::Editor),
        asks_change(delete_metadata_answer(delete, t)) ==> caller_authorized(t, Locate::MetadataBoard(delete.meta_id), BoardUserRole::Editor),
        asks_change(update_metadata_value_answer(update, t)) ==> caller_authorized(t, Locate::MetadataBoard(update.meta_id), BoardUserRole::Editor),
        !asks_change(get_metadata_details_answer(meta_id, t)),
        !asks_change(list_metadata_for_card_answer(card_id, t)),
        update.value is None
            ==> update_metadata_value_answer(update, t) == fail(StatusCode::BAD_REQUEST, "No fields to update"@),
{
    lemma_gate(t, Locate::CardBoard(create.card_id), BoardUserRole::Editor, metadata_forbidden());
    lemma_gate(t, Locate::MetadataBoard(delete.meta_id), BoardUserRole::Editor, metadata_forbidden());
    lemma_gate(t, Locate::MetadataBoard(update.meta_id), BoardUserRole::Editor, metadata_forbidden());
    lemma_gate(t, Locate::Metadata(meta_id), BoardUserRole::Viewer, "No access to this board"@);
    lemma_gate(t, Locate::CardBoard(card_id), BoardUserRole::Viewer, "No access to this board"@);
}

/// A metadata entry is created on the card named, with the key and value
/// sent, and nothing else is asked to change; once the caller's role on the
/// card's board was fetched, an editor or owner is asked for the creation
/// and anyone else is refused; the new entry's id is answered only after
/// the creation was asked for and made with that id.
pub proof fn law_create_metadata(p: MetadataCreateRequest, t: Seq<Outcome>)
    ensures
        forall|r: Request| create_metadata_answer(p, t) == ApiStepView::Perform(r) && r.is_change()
            ==> r == (Request::CreateMetadata { metadata: CardMetadata { item_id: p.card_id, key: p.key, value: p.value } }),
        role_just_fetched(t, Locate::CardBoard(p.card_id)) ==> (asks_change(create_metadata_answer(p, t))
            <==> caller_authorized(t, Locate::CardBoard(p.card_id), BoardUserRole::Editor)),
        forall|id: i64| create_metadata_answer(p, t) == succeed(ReplyView::Id(id)) ==> exists|k: int| 0 <= k < t.len()
            && #[trigger] create_metadata_answer(p, t.take(k)) == ApiStepView::Perform(Request::CreateMetadata { metadata: CardMetadata { item_id: p.card_id, key: p.key, value: p.value } })
            && t[k] == Outcome::Created(Ok(id)),
{
    let loc = Locate::CardBoard(p.card_id);
    let req = Request::CreateMetadata { metadata: CardMetadata { item_id: p.card_id, key: p.key, value: p.value } };
    let msg = "Failed to create metadata";
    law_gated_create(t, loc, BoardUserRole::Editor, metadata_forbidden(), req, msg);
    assert(create_metadata_answer(p, t) == gated_create(t, loc, BoardUserRole::Editor, metadata_forbidden(), req, msg));
    if let Step::Respond(Ok(ReplyView::Id(id))) = create_metadata_answer(p, t) {
        let k = choose|k: int| 0 <= k < t.len()
            && #[trigger] gated_create(t.take(k), loc, BoardUserRole::Editor, metadata_forbidden(), req, msg) == ApiStepView::Perform(req)
            && t[k] == Outcome::Created(Ok(id));
        assert(create_metadata_answer(p, t.take(k)) == gated_create(t.take(k), loc, BoardUserRole::Editor, metadata_forbidden(), req, msg));
    }
}

/// A metadata deletion asks for no change but the deletion of the entry
/// named; once the caller's role on its board was fetched, the deletion is
/// asked for exactly when the caller is an editor or owner there; `OK` is
/// answered only after the deletion was asked for.
pub proof fn law_delete_metadata(p: MetadataDeleteRequest, t: Seq<Outcome>)
    ensures
        forall|r: Request| delete_metadata_answer(p, t) == ApiStepView::Perform(r) && r.is_change()
            ==> r == (Request::DeleteMetadata { meta_id: p.meta_id }),
        role_just_fetched(t, Locate::MetadataBoard(p.meta_id)) ==> (asks_change(delete_metadata_answer(p, t))
            <==> caller_authorized(t, Locate::MetadataBoard(p.meta_id), BoardUserRole::Editor)),
        delete_metadata_answer(p, t) == succeed(ReplyView::Status(StatusCode::OK)) ==> exists|k: int| 0 <= k < t.len()
            && #[trigger] delete_metadata_answer(p, t.take(k)) == ApiStepView::Perform(Request::DeleteMetadata { meta_id: p.meta_id }),
{
    {
        let loc = Locate::MetadataBoard(p.meta_id);
        let ops = seq![(Request::DeleteMetadata { meta_id: p.meta_id }, "Failed to delete metadata")];
        law_gated_changes(t, loc, BoardUserRole::Editor, metadata_forbidden(), ops, StatusCode::OK);
        assert(delete_metadata_answer(p, t) == gated_changes(t, loc, BoardUserRole::Editor, metadata_forbidden(), ops, StatusCode::OK));
        if delete_metadata_answer(p, t) == succeed(ReplyView::Status(StatusCode::OK)) {
            assert(ops[0].0 == (Request::DeleteMetadata { meta_id: p.meta_id }));
            let k = choose|k: int| 0 <= k < t.len() && #[trigger] gated_changes(t.take(k), loc, BoardUserRole::Editor,
                metadata_forbidden(), ops, StatusCode::OK) == ApiStepView::Perform(ops[0].0);
            assert(delete_metadata_answer(p, t.take(k)) == gated_changes(t.take(k), loc, BoardUserRole::Editor, metadata_forbidden(), ops, StatusCode::OK));
        }
    }
}

/// A metadata update that gives a value asks for no change but setting the
/// entry named to exactly that value (`None` clears it); once the caller's
/// role on the entry's board was fetched, the change is asked for exactly
/// when the caller is an editor or owner there; `OK` is answered only after
/// the change was asked for.
pub proof fn law_update_metadata_value(p: MetadataUpdateRequest, t: Seq<Outcome>)
    ensures
        forall|r: Request| update_metadata_value_answer(p, t) == ApiStepView::Perform(r) && r.is_change()
            ==> r == (Request::SetMetadataValue { meta_id: p.meta_id, value: p.value->Some_0 }),
        p.value is Some && role_just_fetched(t, Locate::MetadataBoard(p.meta_id)) ==> (asks_change(update_metadata_value_answer(p, t))
            <==> caller_authorized(t, Locate::MetadataBoard(p.meta_id), BoardUserRole::Editor)),
        update_metadata_value_answer(p, t) == succeed(ReplyView::Status(StatusCode::OK)) ==> exists|k: int| 0 <= k < t.len()
            && #[trigger] update_metadata_value_answer(p, t.take(k)) == ApiStepView::Perform(Request::SetMetadataValue { meta_id: p.meta_id, value: p.value->Some_0 }),
{
    if p.value is Some {
        let loc = Locate::MetadataBoard(p.meta_id);
        let ops = seq![(Request::SetMetadataValue { meta_id: p.meta_id, value: p.value->Some_0 }, "Failed to update metadata value")];
        law_gated_changes(t, loc, BoardUserRole::Editor, metadata_forbidden(), ops, StatusCode::OK);
        assert(update_metadata_value_answer(p, t) == gated_changes(t, loc, BoardUserRole::Editor, metadata_forbidden(), ops, StatusCode::OK));
        if update_metadata_value_answer(p, t) == succeed(ReplyView::Status(StatusCode::OK)) {
            assert(ops[0].0 == (Request::SetMetadataValue { meta_id: p.meta_id, value: p.value->Some_0 }));
            let k = choose|k: int| 0 <= k < t.len() && #[trigger] gated_changes(t.take(k), loc, BoardUserRole::Editor,
                metadata_forbidden(), ops, StatusCode::OK) == ApiStepView::Perform(ops[0].0);
            assert(update_metadata_value_answer(p, t.take(k)) == gated_changes(t.take(k), loc, BoardUserRole::Editor, metadata_forbidden(), ops, StatusCode::OK));
        }
    }
}

/// A member of the entry's board is shown the metadata entry that was
/// fetched: its id, its board, and the card, key and value it was fetched
/// with; once the caller's role was fetched, a caller who is no member is
/// refused as forbidden.
pub proof fn law_get_metadata_details(meta_id: MetaId, t: Seq<Outcome>, board: BoardId, at: int, entry: CardMetadata)
    ensures
        caller_authorized(t, Locate::Metadata(meta_id), BoardUserRole::Viewer) && locate(t, Locate::Metadata(meta_id)) == (LocatedView::Found { board, at })
            && t[1] == Outcome::Metadata(Ok(Some(entry)))
            ==> get_metadata_details_answer(meta_id, t) == succeed(ReplyView::Metadata(MetadataDetails { meta_id, board_id: board, card_id: entry.item_id, key: entry.key, value: entry.value })),
        role_just_fetched(t, Locate::Metadata(meta_id)) && !caller_authorized(t, Locate::Metadata(meta_id), BoardUserRole::Viewer)
            ==> (get_metadata_details_answer(meta_id, t) matches Step::Respond(Err((code, _))) && code == StatusCode::FORBIDDEN),
{
    if role_just_fetched(t, Locate::Metadata(meta_id)) {
        lemma_gate_decides(t, Locate::Metadata(meta_id), BoardUserRole::Viewer, "No access to this board"@);
    }
}

/// A member of the card's board is answered, once the card's metadata was
/// fetched, with exactly those entries, in the order fetched, each with its
/// id, the board, the card asked for, and its key and value; before that
/// the metadata of that card is asked for.
pub proof fn law_list_metadata_for_card(card_id: CardId, t: Seq<Outcome>, board: BoardId, at: int, v: Vec<(MetaId, CardMetadata)>)
    ensures
        caller_authorized(t, Locate::CardBoard(card_id), BoardUserRole::Viewer) && locate(t, Locate::CardBoard(card_id)) == (LocatedView::Found { board, at })
            && t.len() == at + 1
            ==> list_metadata_for_card_answer(card_id, t) == ApiStepView::Perform(Request::MetadataOfCard { card_id }),
        caller_authorized(t, Locate::CardBoard(card_id), BoardUserRole::Viewer) && locate(t, Locate::CardBoard(card_id)) == (LocatedView::Found { board, at })
            && t.len() > at + 1 && t[at + 1] == Outcome::MetadataList(Ok(v))
            ==> list_metadata_for_card_answer(card_id, t) == succeed(ReplyView::MetadataList(Seq::new(v@.len(), |i: int| MetadataSummary { meta_id: v@[i].0, board_id: board, card_id, key: v@[i].1.key, value: v@[i].1.value }))),
        role_just_fetched(t, Locate::CardBoard(card_id)) && !caller_authorized(t, Locate::CardBoard(card_id), BoardUserRole::Viewer)
            ==> (list_metadata_for_card_answer(card_id, t) matches Step::Respond(Err((code, _))) && code == StatusCode::FORBIDDEN),
{
    if role_just_fetched(t, Locate::CardBoard(card_id)) {
        lemma_gate_decides(t, Locate::CardBoard(card_id), BoardUserRole::Viewer, "No access to this board"@);
    }
    assert(v@.map_values(|p: (MetaId, CardMetadata)| crate::boards::api::gate::metadata_summary(p, board, card_id)) =~= Seq::new(v@.len(), |i: int| MetadataSummary { meta_id: v@[i].0, board_id: board, card_id, key: v@[i].1.key, value: v@[i].1.value }));
}

} // verus!
