//! The common course of a board request: authenticate the caller, find the
//! board the request is about, check the caller's role on it, then do the
//! work.  Each endpoint is this course with its own parameters.
use vstd::prelude::*;
use crate::auth::utils::{bearer_user, extract_bearer, AuthError};
use crate::boards::api::board::BoardDetails;
use crate::boards::api::card_metadata::{MetadataDetails, MetadataSummary};
use crate::boards::api::cards::{CardDetails, CardSummary};
use crate::boards::api::groups::{GroupDetails, GroupSummary};
use crate::boards::api::users::BoardUserResponse;
use crate::boards::api::utils::{auth_failure, map_auth_error, role_check, ensure_minimum_role};
use crate::boards::board::{clone_opt_string, BoardId};
use crate::boards::card_metadata::{CardMetadata, MetaId};
use crate::boards::cards::{Card, CardId};
use crate::boards::groups::{BoardGroup, GroupId};
use crate::boards::role::BoardUserRole;
use crate::boards::users::{BoardUser, UserId};
use crate::boards::utils::{DbError, TraceError};
use crate::flow::{Outcome, Request, Step};
use crate::http::StatusCode;
use crate::text::{owned, with_detail};

verus! {

/// A successful answer of a board endpoint.
#[derive(Debug, PartialEq)]
pub enum Reply {
    Id(i64),
    Status(StatusCode),
    Board(BoardDetails),
    Group(GroupDetails),
    Groups(Vec<GroupSummary>),
    Card(CardDetails),
    Cards(Vec<CardSummary>),
    Metadata(MetadataDetails),
    MetadataList(Vec<MetadataSummary>),
    Users(Vec<BoardUserResponse>),
}

/// A successful answer, with lists seen as sequences.
pub enum ReplyView {
    Id(i64),
    Status(StatusCode),
    Board(BoardDetails),
    Group(GroupDetails),
    Groups(Seq<GroupSummary>),
    Card(CardDetails),
    Cards(Seq<CardSummary>),
    Metadata(MetadataDetails),
    MetadataList(Seq<MetadataSummary>),
    Users(Seq<BoardUserResponse>),
}

impl View for Reply {
    type V = ReplyView;

    open spec fn view(&self) -> ReplyView {
        match self {
            Reply::Id(id) => ReplyView::Id(*id),
            Reply::Status(s) => ReplyView::Status(*s),
            Reply::Board(b) => ReplyView::Board(*b),
            Reply::Group(g) => ReplyView::Group(*g),
            Reply::Groups(v) => ReplyView::Groups(v@),
            Reply::Card(c) => ReplyView::Card(*c),
            Reply::Cards(v) => ReplyView::Cards(v@),
            Reply::Metadata(m) => ReplyView::Metadata(*m),
            Reply::MetadataList(v) => ReplyView::MetadataList(v@),
            Reply::Users(v) => ReplyView::Users(v@),
        }
    }
}

/// A refusal: the status and the message sent with it.
pub type ApiError = (StatusCode, String);

/// The next step of a board endpoint.
pub type ApiStep = Step<Result<Reply, ApiError>>;

/// The next step of a board endpoint, with texts seen as sequences.
pub type ApiStepView = Step<Result<ReplyView, (StatusCode, Seq<char>)>>;

impl View for Step<Result<Reply, (StatusCode, String)>> {
    type V = ApiStepView;

    open spec fn view(&self) -> ApiStepView {
        match self {
            Step::Perform(r) => Step::Perform(*r),
            Step::Respond(Ok(reply)) => Step::Respond(Ok(reply@)),
            Step::Respond(Err((code, msg))) => Step::Respond(Err((*code, msg@))),
            Step::Unexpected => Step::Unexpected,
        }
    }
}

/// Answer with a refusal.
pub open spec fn fail(code: StatusCode, msg: Seq<char>) -> ApiStepView {
    Step::Respond(Err((code, msg)))
}

/// Answer with a success.
pub open spec fn succeed(reply: ReplyView) -> ApiStepView {
    Step::Respond(Ok(reply))
}

/// The answer to a failed database operation: an internal error whose
/// message names what failed and why.
pub open spec fn db_failure(msg: Seq<char>, e: DbError) -> ApiStepView {
    fail(StatusCode::INTERNAL_SERVER_ERROR, with_detail(msg, e.message@))
}

fn fail_with(code: StatusCode, msg: &str) -> (s: ApiStep)
    ensures
        s@ == fail(code, msg@),
{
    Step::Respond(Err((code, owned(msg))))
}

/// The answer to a failed database operation (see `db_failure`).
pub(crate) fn db_fail(msg: &str, e: &DbError) -> (s: ApiStep)
    ensures
        s@ == db_failure(msg@, *e),
{
    let failed: Result<(), DbError> = Err(e.clone());
    match failed.trace_err(msg) {
        Err(text) => Step::Respond(Err((StatusCode::INTERNAL_SERVER_ERROR, text))),
        Ok(()) => Step::Unexpected,
    }
}

/// How an endpoint finds the board that its request is about.
#[derive(Clone, Copy, Debug, PartialEq, Eq, Structural)]
pub enum Locate {
    /// The board is named in the request.
    Board(BoardId),
    /// The board that holds a group.
    Group(GroupId),
    /// The board that holds a card.
    CardBoard(CardId),
    /// The board that holds a metadata entry.
    MetadataBoard(MetaId),
    /// The card itself is fetched first, then the board that holds it.
    Card(CardId),
    /// The metadata entry itself is fetched first, then the board that holds it.
    Metadata(MetaId),
}

/// Where the search for the board stands.
pub enum LocatedView {
    /// The endpoint's next step is decided.
    Decided(ApiStepView),
    /// The board was found; the transcript goes on at `at`.
    Found { board: BoardId, at: int },
}

/// Where the search for the board stands.
pub enum Located {
    Decided(ApiStep),
    Found { board: BoardId, at: usize },
}

impl View for Located {
    type V = LocatedView;

    open spec fn view(&self) -> LocatedView {
        match self {
            Located::Decided(s) => LocatedView::Decided(s@),
            Located::Found { board, at } => LocatedView::Found { board: *board, at: *at as int },
        }
    }
}

/// Looking up the board of a card or of a metadata entry, whose answer is
/// expected at position `i`.
pub open spec fn board_lookup(t: Seq<Outcome>, i: int, req: Request, fetch_msg: Seq<char>, missing_msg: Seq<char>) -> LocatedView {
    if t.len() <= i {
        LocatedView::Decided(Step::Perform(req))
    } else {
        match t[i] {
            Outcome::BoardOf(Err(e)) => LocatedView::Decided(db_failure(fetch_msg, e)),
            Outcome::BoardOf(Ok(None)) => LocatedView::Decided(fail(StatusCode::NOT_FOUND, missing_msg)),
            Outcome::BoardOf(Ok(Some(b))) => LocatedView::Found { board: b, at: i + 1 },
            _ => LocatedView::Decided(Step::Unexpected),
        }
    }
}

/// Finding the board, with the lookups starting at position 1 of the transcript.
pub open spec fn locate(t: Seq<Outcome>, loc: Locate) -> LocatedView {
    match loc {
        Locate::Board(b) => LocatedView::Found { board: b, at: 1 },
        Locate::Group(g) => if t.len() <= 1 {
            LocatedView::Decided(Step::Perform(Request::Group { group_id: g }))
        } else {
            match t[1] {
                Outcome::Group(Err(e)) => LocatedView::Decided(db_failure("Failed to fetch group"@, e)),
                Outcome::Group(Ok(None)) => LocatedView::Decided(fail(StatusCode::NOT_FOUND, "Group not found"@)),
                Outcome::Group(Ok(Some(group))) => LocatedView::Found { board: group.board_id, at: 2 },
                _ => LocatedView::Decided(Step::Unexpected),
            }
        },
        Locate::CardBoard(c) => board_lookup(t, 1, Request::CardBoard { card_id: c },
            "Failed to fetch card board"@, "Card not found"@),
        Locate::MetadataBoard(m) => board_lookup(t, 1, Request::MetadataBoard { meta_id: m },
            "Failed to fetch metadata board"@, "Metadata entry not found"@),
        Locate::Card(c) => if t.len() <= 1 {
            LocatedView::Decided(Step::Perform(Request::Card { card_id: c }))
        } else {
            match t[1] {
                Outcome::Card(Err(e)) => LocatedView::Decided(db_failure("Failed to fetch card"@, e)),
                Outcome::Card(Ok(None)) => LocatedView::Decided(fail(StatusCode::NOT_FOUND, "Card not found"@)),
                Outcome::Card(Ok(Some(_))) => board_lookup(t, 2, Request::CardBoard { card_id: c },
                    "Failed to fetch card board"@, "Card not found"@),
                _ => LocatedView::Decided(Step::Unexpected),
            }
        },
        Locate::Metadata(m) => if t.len() <= 1 {
            LocatedView::Decided(Step::Perform(Request::Metadata { meta_id: m }))
        } else {
            match t[1] {
                Outcome::Metadata(Err(e)) => LocatedView::Decided(db_failure("Failed to fetch metadata entry"@, e)),
                Outcome::Metadata(Ok(None)) => LocatedView::Decided(fail(StatusCode::NOT_FOUND, "Metadata entry not found"@)),
                Outcome::Metadata(Ok(Some(_))) => board_lookup(t, 2, Request::MetadataBoard { meta_id: m },
                    "Failed to fetch metadata board"@, "Metadata entry not found"@),
                _ => LocatedView::Decided(Step::Unexpected),
            }
        },
    }
}

fn lookup_board(t: &[Outcome], i: usize, req: Request, fetch_msg: &str, missing_msg: &str) -> (r: Located)
    ensures
        r@ == board_lookup(t@, i as int, req, fetch_msg@, missing_msg@),
{
    if t.len() <= i {
        Located::Decided(Step::Perform(req))
    } else {
        match &t[i] {
            Outcome::BoardOf(Err(e)) => Located::Decided(db_fail(fetch_msg, e)),
            Outcome::BoardOf(Ok(None)) => Located::Decided(fail_with(StatusCode::NOT_FOUND, missing_msg)),
            Outcome::BoardOf(Ok(Some(b))) => Located::Found { board: *b, at: i + 1 },
            _ => Located::Decided(Step::Unexpected),
        }
    }
}

/// Finds the board that a request is about (see `locate`).
pub fn locate_board(t: &[Outcome], loc: Locate) -> (r: Located)
    requires
        t@.len() >= 1,
    ensures
        r@ == locate(t@, loc),
{
    match loc {
        Locate::Board(b) => Located::Found { board: b, at: 1 },
        Locate::Group(g) => if t.len() <= 1 {
            Located::Decided(Step::Perform(Request::Group { group_id: g }))
        } else {
            match &t[1] {
                Outcome::Group(Err(e)) => Located::Decided(db_fail("Failed to fetch group", e)),
                Outcome::Group(Ok(None)) => Located::Decided(fail_with(StatusCode::NOT_FOUND, "Group not found")),
                Outcome::Group(Ok(Some(group))) => Located::Found { board: group.board_id, at: 2 },
                _ => Located::Decided(Step::Unexpected),
            }
        },
        Locate::CardBoard(c) => lookup_board(t, 1, Request::CardBoard { card_id: c },
            "Failed to fetch card board", "Card not found"),
        Locate::MetadataBoard(m) => lookup_board(t, 1, Request::MetadataBoard { meta_id: m },
            "Failed to fetch metadata board", "Metadata entry not found"),
        Locate::Card(c) => if t.len() <= 1 {
            Located::Decided(Step::Perform(Request::Card { card_id: c }))
        } else {
            match &t[1] {
                Outcome::Card(Err(e)) => Located::Decided(db_fail("Failed to fetch card", e)),
                Outcome::Card(Ok(None)) => Located::Decided(fail_with(StatusCode::NOT_FOUND, "Card not found")),
                Outcome::Card(Ok(Some(_))) => lookup_board(t, 2, Request::CardBoard { card_id: c },
                    "Failed to fetch card board", "Card not found"),
                _ => Located::Decided(Step::Unexpected),
            }
        },
        Locate::Metadata(m) => if t.len() <= 1 {
            Located::Decided(Step::Perform(Request::Metadata { meta_id: m }))
        } else {
            match &t[1] {
                Outcome::Metadata(Err(e)) => Located::Decided(db_fail("Failed to fetch metadata entry", e)),
                Outcome::Metadata(Ok(None)) => Located::Decided(fail_with(StatusCode::NOT_FOUND, "Metadata entry not found")),
                Outcome::Metadata(Ok(Some(_))) => lookup_board(t, 2, Request::MetadataBoard { meta_id: m },
                    "Failed to fetch metadata board", "Metadata entry not found"),
                _ => Located::Decided(Step::Unexpected),
            }
        },
    }
}


/// Where the authorization of a request stands.
pub enum GateView {
    /// The endpoint's next step is decided before its own work.
    Decided(ApiStepView),
    /// The caller `user` may act on `board`; the endpoint's own work starts
    /// at position `at` of the transcript.
    Passed { user: UserId, board: BoardId, at: int },
}

/// Where the authorization of a request stands.
pub enum Gate {
    Decided(ApiStep),
    Passed { user: UserId, board: BoardId, at: usize },
}

impl View for Gate {
    type V = GateView;

    open spec fn view(&self) -> GateView {
        match self {
            Gate::Decided(s) => GateView::Decided(s@),
            Gate::Passed { user, board, at } => GateView::Passed { user: *user, board: *board, at: *at as int },
        }
    }
}

/// The authorization of a board request: the bearer token is checked
/// (position 0), the board is found (`locate`), then the caller's role on
/// it is fetched and must be at least `min`; a member below it is refused
/// with `forbidden`.
pub open spec fn gate(t: Seq<Outcome>, loc: Locate, min: BoardUserRole, forbidden: Seq<char>) -> GateView {
    if t.len() == 0 {
        GateView::Decided(Step::Perform(Request::Authenticate))
    } else {
        match t[0] {
            Outcome::Bearer { claims, now } => match bearer_user(claims, now) {
                Err(e) => GateView::Decided(Step::Respond(Err(auth_failure(e)))),
                Ok(user) => match locate(t, loc) {
                    LocatedView::Decided(s) => GateView::Decided(s),
                    LocatedView::Found { board, at } => if t.len() <= at {
                        GateView::Decided(Step::Perform(Request::UserRole { board_id: board, user_id: user }))
                    } else {
                        match t[at] {
                            Outcome::Role(Err(e)) => GateView::Decided(db_failure("Couldn't get user's board role"@, e)),
                            Outcome::Role(Ok(role)) => match role_check(role, min, forbidden) {
                                Err(refusal) => GateView::Decided(Step::Respond(Err(refusal))),
                                Ok(()) => GateView::Passed { user, board, at: at + 1 },
                            },
                            _ => GateView::Decided(Step::Unexpected),
                        }
                    },
                },
            },
            _ => GateView::Decided(Step::Unexpected),
        }
    }
}

/// Authorizes a board request (see `gate`).
pub fn authorize(t: &[Outcome], loc: Locate, min: BoardUserRole, forbidden: &str) -> (r: Gate)
    ensures
        r@ == gate(t@, loc, min, forbidden@),
        r matches Gate::Passed { at, .. } ==> 1 < at <= t@.len(),
{
    if t.len() == 0 {
        return Gate::Decided(Step::Perform(Request::Authenticate));
    }
    match &t[0] {
        Outcome::Bearer { claims, now } => match extract_bearer(*claims, *now) {
            Err(e) => {
                let refusal = map_auth_error(e);
                Gate::Decided(Step::Respond(Err(refusal)))
            },
            Ok(user) => match locate_board(t, loc) {
                Located::Decided(s) => Gate::Decided(s),
                Located::Found { board, at } => {
                    if t.len() <= at {
                        Gate::Decided(Step::Perform(Request::UserRole { board_id: board, user_id: user }))
                    } else {
                        match &t[at] {
                            Outcome::Role(Err(e)) => Gate::Decided(db_fail("Couldn't get user's board role", e)),
                            Outcome::Role(Ok(role)) => match ensure_minimum_role(*role, min, forbidden) {
                                Err(refusal) => Gate::Decided(Step::Respond(Err(refusal))),
                                Ok(()) => Gate::Passed { user, board, at: at + 1 },
                            },
                            _ => Gate::Decided(Step::Unexpected),
                        }
                    }
                },
            },
        },
        _ => Gate::Decided(Step::Unexpected),
    }
}

/// What an endpoint does once the caller is authorized.
pub enum Body {
    /// Answer with this status right away.
    Status(StatusCode),
    /// Make these changes in order, each answered by `Done`, then answer with
    /// the status; a failed change is answered with its message.
    Changes(Vec<(Request, &'static str)>, StatusCode),
    /// Create a row and answer with its id; a failure is answered with the message.
    Create(Request, &'static str),
    /// Fetch and show a board.
    BoardDetails(BoardId),
    /// Show the group that was fetched while finding the board.
    GroupDetails(GroupId),
    /// Show the card that was fetched while finding the board.
    CardDetails(CardId),
    /// Show the metadata entry that was fetched while finding the board.
    MetadataDetails(MetaId),
    /// Fetch and list the groups of a board.
    GroupsOfBoard(BoardId),
    /// Fetch and list the cards of a group.
    CardsOfGroup(GroupId),
    /// Fetch and list the metadata entries of a card.
    MetadataOfCard(CardId),
    /// Fetch and list the members of a board.
    UsersOfBoard(BoardId),
}

/// Making `ops` in order, their answers expected from position `at` on.
pub open spec fn changes(t: Seq<Outcome>, at: int, ops: Seq<(Request, &'static str)>, done: StatusCode) -> ApiStepView
    decreases ops.len(),
{
    if ops.len() == 0 {
        succeed(ReplyView::Status(done))
    } else if t.len() <= at {
        Step::Perform(ops[0].0)
    } else {
        match t[at] {
            Outcome::Done(Ok(())) => changes(t, at + 1, ops.drop_first(), done),
            Outcome::Done(Err(e)) => db_failure(ops[0].1@, e),
            _ => Step::Unexpected,
        }
    }
}

/// A group of a board, as listed.
pub open spec fn group_summary(p: (GroupId, BoardGroup), board: BoardId) -> GroupSummary {
    GroupSummary { group_id: p.0, board_id: board, name: p.1.name, position: p.1.position }
}

/// A card of a group, as listed.
pub open spec fn card_summary(p: (CardId, Card), board: BoardId, group: GroupId) -> CardSummary {
    CardSummary {
        card_id: p.0,
        board_id: board,
        group_id: group,
        title: p.1.title,
        content: p.1.content,
        position: p.1.position,
    }
}

/// A metadata entry of a card, as listed.
pub open spec fn metadata_summary(p: (MetaId, CardMetadata), board: BoardId, card: CardId) -> MetadataSummary {
    MetadataSummary { meta_id: p.0, board_id: board, card_id: card, key: p.1.key, value: p.1.value }
}

/// A member of a board, as listed.
pub open spec fn user_response(u: BoardUser) -> BoardUserResponse {
    BoardUserResponse { board_id: u.board_id, user_id: u.user_id, role: u.role }
}

/// The work of an authorized endpoint on `board`, its answers expected from
/// position `at` on.
pub open spec fn work(t: Seq<Outcome>, at: int, board: BoardId, body: Body) -> ApiStepView {
    match body {
        Body::Status(s) => succeed(ReplyView::Status(s)),
        Body::Changes(ops, done) => changes(t, at, ops@, done),
        Body::Create(req, msg) => if t.len() <= at {
            Step::Perform(req)
        } else {
            match t[at] {
                Outcome::Created(Ok(id)) => succeed(ReplyView::Id(id)),
                Outcome::Created(Err(e)) => db_failure(msg@, e),
                _ => Step::Unexpected,
            }
        },
        Body::BoardDetails(b) => if t.len() <= at {
            Step::Perform(Request::Board { board_id: b })
        } else {
            match t[at] {
                Outcome::Board(Err(e)) => db_failure("Failed to fetch board details"@, e),
                Outcome::Board(Ok(None)) => fail(StatusCode::NOT_FOUND, "Board not found"@),
                Outcome::Board(Ok(Some(found))) => succeed(ReplyView::Board(
                    BoardDetails { name: found.name, description: found.description })),
                _ => Step::Unexpected,
            }
        },
        Body::GroupDetails(g) => match t[1] {
            Outcome::Group(Ok(Some(group))) => succeed(ReplyView::Group(GroupDetails {
                group_id: g,
                board_id: group.board_id,
                name: group.name,
                position: group.position,
            })),
            _ => Step::Unexpected,
        },
        Body::CardDetails(c) => match t[1] {
            Outcome::Card(Ok(Some(card))) => succeed(ReplyView::Card(CardDetails {
                card_id: c,
                board_id: board,
                group_id: card.group_id,
                title: card.title,
                content: card.content,
                position: card.position,
            })),
            _ => Step::Unexpected,
        },
        Body::MetadataDetails(m) => match t[1] {
            Outcome::Metadata(Ok(Some(entry))) => succeed(ReplyView::Metadata(MetadataDetails {
                meta_id: m,
                board_id: board,
                card_id: entry.item_id,
                key: entry.key,
                value: entry.value,
            })),
            _ => Step::Unexpected,
        },
        Body::GroupsOfBoard(b) => if t.len() <= at {
            Step::Perform(Request::GroupsOfBoard { board_id: b })
        } else {
            match t[at] {
                Outcome::Groups(Err(e)) => db_failure("Failed to fetch groups"@, e),
                Outcome::Groups(Ok(v)) => succeed(ReplyView::Groups(
                    v@.map_values(|p: (GroupId, BoardGroup)| group_summary(p, b)))),
                _ => Step::Unexpected,
            }
        },
        Body::CardsOfGroup(g) => if t.len() <= at {
            Step::Perform(Request::CardsOfGroup { group_id: g })
        } else {
            match t[at] {
                Outcome::Cards(Err(e)) => db_failure("Failed to fetch cards"@, e),
                Outcome::Cards(Ok(v)) => succeed(ReplyView::Cards(
                    v@.map_values(|p: (CardId, Card)| card_summary(p, board, g)))),
                _ => Step::Unexpected,
            }
        },
        Body::MetadataOfCard(c) => if t.len() <= at {
            Step::Perform(Request::MetadataOfCard { card_id: c })
        } else {
            match t[at] {
                Outcome::MetadataList(Err(e)) => db_failure("Failed to fetch metadata entries"@, e),
                Outcome::MetadataList(Ok(v)) => succeed(ReplyView::MetadataList(
                    v@.map_values(|p: (MetaId, CardMetadata)| metadata_summary(p, board, c)))),
                _ => Step::Unexpected,
            }
        },
        Body::UsersOfBoard(b) => if t.len() <= at {
            Step::Perform(Request::UsersOfBoard { board_id: b })
        } else {
            match t[at] {
                Outcome::Users(Err(e)) => db_failure("Failed to fetch board users"@, e),
                Outcome::Users(Ok(v)) => succeed(ReplyView::Users(v@.map_values(|u: BoardUser| user_response(u)))),
                _ => Step::Unexpected,
            }
        },
    }
}

/// A board endpoint: authorization (`gate`), then the endpoint's work,
/// given as what it does from a transcript position on a board.
pub open spec fn gated(t: Seq<Outcome>, loc: Locate, min: BoardUserRole, forbidden: Seq<char>, then: spec_fn(int, BoardId) -> ApiStepView) -> ApiStepView {
    match gate(t, loc, min, forbidden) {
        GateView::Decided(s) => s,
        GateView::Passed { user, board, at } => then(at, board),
    }
}

fn run_changes(t: &[Outcome], at: usize, ops: &Vec<(Request, &'static str)>, done: StatusCode) -> (r: ApiStep)
    requires
        at <= t@.len(),
    ensures
        r@ == changes(t@, at as int, ops@, done),
{
    let n = t.len();
    let mut i: usize = 0;
    assert(ops@.skip(0) =~= ops@);
    while i < ops.len()
        invariant
            i <= ops@.len(),
            n == t@.len(),
            at + i <= n,
            changes(t@, at as int, ops@, done) == changes(t@, at + i, ops@.skip(i as int), done),
        decreases ops@.len() - i,
    {
        let pos = at + i;
        assert(ops@.skip(i as int)[0] == ops@[i as int]);
        if n <= pos {
            let (req, _) = &ops[i];
            return Step::Perform(req.clone());
        }
        match &t[pos] {
            Outcome::Done(Ok(())) => {},
            Outcome::Done(Err(e)) => {
                let (_, msg) = &ops[i];
                return db_fail(msg, e);
            },
            _ => {
                return Step::Unexpected;
            },
        }
        assert(ops@.skip(i as int).drop_first() =~= ops@.skip(i + 1));
        i = i + 1;
    }
    assert(ops@.skip(i as int).len() == 0);
    Step::Respond(Ok(Reply::Status(done)))
}

fn group_summaries(v: &Vec<(GroupId, BoardGroup)>, board: BoardId) -> (r: Vec<GroupSummary>)
    ensures
        r@ == v@.map_values(|p: (GroupId, BoardGroup)| group_summary(p, board)),
{
    let mut r: Vec<GroupSummary> = Vec::new();
    let mut i: usize = 0;
    while i < v.len()
        invariant
            i <= v@.len(),
            r@ == v@.take(i as int).map_values(|p: (GroupId, BoardGroup)| group_summary(p, board)),
        decreases v@.len() - i,
    {
        let (id, group) = &v[i];
        r.push(GroupSummary { group_id: *id, board_id: board, name: group.name.clone(), position: group.position.clone() });
        assert(v@.take(i + 1) =~= v@.take(i as int).push(v@[i as int]));
        i = i + 1;
        assert(r@ =~= v@.take(i as int).map_values(|p: (GroupId, BoardGroup)| group_summary(p, board)));
    }
    assert(v@.take(i as int) =~= v@);
    r
}

fn card_summaries(v: &Vec<(CardId, Card)>, board: BoardId, group: GroupId) -> (r: Vec<CardSummary>)
    ensures
        r@ == v@.map_values(|p: (CardId, Card)| card_summary(p, board, group)),
{
    let mut r: Vec<CardSummary> = Vec::new();
    let mut i: usize = 0;
    while i < v.len()
        invariant
            i <= v@.len(),
            r@ == v@.take(i as int).map_values(|p: (CardId, Card)| card_summary(p, board, group)),
        decreases v@.len() - i,
    {
        let (id, card) = &v[i];
        r.push(CardSummary {
            card_id: *id,
            board_id: board,
            group_id: group,
            title: card.title.clone(),
            content: clone_opt_string(&card.content),
            position: card.position.clone(),
        });
        assert(v@.take(i + 1) =~= v@.take(i as int).push(v@[i as int]));
        i = i + 1;
        assert(r@ =~= v@.take(i as int).map_values(|p: (CardId, Card)| card_summary(p, board, group)));
    }
    assert(v@.take(i as int) =~= v@);
    r
}

fn metadata_summaries(v: &Vec<(MetaId, CardMetadata)>, board: BoardId, card: CardId) -> (r: Vec<MetadataSummary>)
    ensures
        r@ == v@.map_values(|p: (MetaId, CardMetadata)| metadata_summary(p, board, card)),
{
    let mut r: Vec<MetadataSummary> = Vec::new();
    let mut i: usize = 0;
    while i < v.len()
        invariant
            i <= v@.len(),
            r@ == v@.take(i as int).map_values(|p: (MetaId, CardMetadata)| metadata_summary(p, board, card)),
        decreases v@.len() - i,
    {
        let (id, entry) = &v[i];
        r.push(MetadataSummary {
            meta_id: *id,
            board_id: board,
            card_id: card,
            key: entry.key.clone(),
            value: clone_opt_string(&entry.value),
        });
        assert(v@.take(i + 1) =~= v@.take(i as int).push(v@[i as int]));
        i = i + 1;
        assert(r@ =~= v@.take(i as int).map_values(|p: (MetaId, CardMetadata)| metadata_summary(p, board, card)));
    }
    assert(v@.take(i as int) =~= v@);
    r
}

fn user_responses(v: &Vec<BoardUser>) -> (r: Vec<BoardUserResponse>)
    ensures
        r@ == v@.map_values(|u: BoardUser| user_response(u)),
{
    let mut r: Vec<BoardUserResponse> = Vec::new();
    let mut i: usize = 0;
    while i < v.len()
        invariant
            i <= v@.len(),
            r@ == v@.take(i as int).map_values(|u: BoardUser| user_response(u)),
        decreases v@.len() - i,
    {
        let u = &v[i];
        r.push(BoardUserResponse { board_id: u.board_id, user_id: u.user_id, role: u.role });
        assert(v@.take(i + 1) =~= v@.take(i as int).push(v@[i as int]));
        i = i + 1;
        assert(r@ =~= v@.take(i as int).map_values(|u: BoardUser| user_response(u)));
    }
    assert(v@.take(i as int) =~= v@);
    r
}

/// Does the work of an authorized endpoint (see `work`).
pub fn run_work(t: &[Outcome], at: usize, board: BoardId, body: Body) -> (r: ApiStep)
    requires
        1 < at <= t@.len(),
    ensures
        r@ == work(t@, at as int, board, body),
{
    match body {
        Body::Status(s) => Step::Respond(Ok(Reply::Status(s))),
        Body::Changes(ops, done) => run_changes(t, at, &ops, done),
        Body::Create(req, msg) => if t.len() <= at {
            Step::Perform(req)
        } else {
            match &t[at] {
                Outcome::Created(Ok(id)) => Step::Respond(Ok(Reply::Id(*id))),
                Outcome::Created(Err(e)) => db_fail(msg, e),
                _ => Step::Unexpected,
            }
        },
        Body::BoardDetails(b) => if t.len() <= at {
            Step::Perform(Request::Board { board_id: b })
        } else {
            match &t[at] {
                Outcome::Board(Err(e)) => db_fail("Failed to fetch board details", e),
                Outcome::Board(Ok(None)) => fail_with(StatusCode::NOT_FOUND, "Board not found"),
                Outcome::Board(Ok(Some(found))) => Step::Respond(Ok(Reply::Board(BoardDetails {
                    name: found.name.clone(),
                    description: clone_opt_string(&found.description),
                }))),
                _ => Step::Unexpected,
            }
        },
        Body::GroupDetails(g) => match &t[1] {
            Outcome::Group(Ok(Some(group))) => Step::Respond(Ok(Reply::Group(GroupDetails {
                group_id: g,
                board_id: group.board_id,
                name: group.name.clone(),
                position: group.position.clone(),
            }))),
            _ => Step::Unexpected,
        },
        Body::CardDetails(c) => match &t[1] {
            Outcome::Card(Ok(Some(card))) => Step::Respond(Ok(Reply::Card(CardDetails {
                card_id: c,
                board_id: board,
                group_id: card.group_id,
                title: card.title.clone(),
                content: clone_opt_string(&card.content),
                position: card.position.clone(),
            }))),
            _ => Step::Unexpected,
        },
        Body::MetadataDetails(m) => match &t[1] {
            Outcome::Metadata(Ok(Some(entry))) => Step::Respond(Ok(Reply::Metadata(MetadataDetails {
                meta_id: m,
                board_id: board,
                card_id: entry.item_id,
                key: entry.key.clone(),
                value: clone_opt_string(&entry.value),
            }))),
            _ => Step::Unexpected,
        },
        Body::GroupsOfBoard(b) => if t.len() <= at {
            Step::Perform(Request::GroupsOfBoard { board_id: b })
        } else {
            match &t[at] {
                Outcome::Groups(Err(e)) => db_fail("Failed to fetch groups", e),
                Outcome::Groups(Ok(v)) => Step::Respond(Ok(Reply::Groups(group_summaries(v, b)))),
                _ => Step::Unexpected,
            }
        },
        Body::CardsOfGroup(g) => if t.len() <= at {
            Step::Perform(Request::CardsOfGroup { group_id: g })
        } else {
            match &t[at] {
                Outcome::Cards(Err(e)) => db_fail("Failed to fetch cards", e),
                Outcome::Cards(Ok(v)) => Step::Respond(Ok(Reply::Cards(card_summaries(v, board, g)))),
                _ => Step::Unexpected,
            }
        },
        Body::MetadataOfCard(c) => if t.len() <= at {
            Step::Perform(Request::MetadataOfCard { card_id: c })
        } else {
            match &t[at] {
                Outcome::MetadataList(Err(e)) => db_fail("Failed to fetch metadata entries", e),
                Outcome::MetadataList(Ok(v)) => Step::Respond(Ok(Reply::MetadataList(metadata_summaries(v, board, c)))),
                _ => Step::Unexpected,
            }
        },
        Body::UsersOfBoard(b) => if t.len() <= at {
            Step::Perform(Request::UsersOfBoard { board_id: b })
        } else {
            match &t[at] {
                Outcome::Users(Err(e)) => db_fail("Failed to fetch board users", e),
                Outcome::Users(Ok(v)) => Step::Respond(Ok(Reply::Users(user_responses(v)))),
                _ => Step::Unexpected,
            }
        },
    }
}

/// Runs a board endpoint: authorization, then its work (see `gated`).
pub fn run_gated(t: &[Outcome], loc: Locate, min: BoardUserRole, forbidden: &str, body: Body) -> (r: ApiStep)
    ensures
        r@ == gated(t@, loc, min, forbidden@, |at: int, board: BoardId| work(t@, at, board, body)),
{
    match authorize(t, loc, min, forbidden) {
        Gate::Decided(s) => s,
        Gate::Passed { user, board, at } => run_work(t, at, board, body),
    }
}

/// Whether an outcome is an accepted bearer token.
pub open spec fn bearer_accepted(o: Outcome) -> bool {
    match o {
        Outcome::Bearer { claims, now } => bearer_user(claims, now) is Ok,
        _ => false,
    }
}

/// Why a bearer-token outcome was refused, if it was.
pub open spec fn bearer_refusal(o: Outcome) -> Option<AuthError> {
    match o {
        Outcome::Bearer { claims, now } => match bearer_user(claims, now) {
            Err(e) => Some(e),
            Ok(_) => None,
        },
        _ => None,
    }
}

/// Whether an outcome is a fetched role that is at least `min`.
pub open spec fn role_grants(o: Outcome, min: BoardUserRole) -> bool {
    match o {
        Outcome::Role(Ok(Some(role))) => role.spec_is_at_least(min),
        _ => false,
    }
}

/// The user an accepted bearer-token outcome stands for.
pub open spec fn bearer_subject(o: Outcome) -> i64 {
    match o {
        Outcome::Bearer { claims, now } => bearer_user(claims, now)->Ok_0,
        _ => arbitrary(),
    }
}

/// Whether the transcript shows an authenticated caller, the board found as
/// `loc` says, and, at the place where the caller's role on that board was
/// asked for, a role that is at least `min`.
pub open spec fn caller_authorized(t: Seq<Outcome>, loc: Locate, min: BoardUserRole) -> bool {
    &&& t.len() > 0
    &&& bearer_accepted(t[0])
    &&& locate(t, loc) matches LocatedView::Found { board, at }
    &&& at < t.len()
    &&& role_grants(t[at], min)
}

/// Whether a step asks for a change of stored data.
pub open spec fn asks_change(s: ApiStepView) -> bool {
    s matches Step::Perform(r) && r.is_change()
}

/// Authorization only ever asks to read, and it lets a request through only
/// when the caller is authenticated and holds at least the required role.
pub proof fn lemma_gate(t: Seq<Outcome>, loc: Locate, min: BoardUserRole, forbidden: Seq<char>)
    ensures
        gate(t, loc, min, forbidden) matches GateView::Decided(Step::Perform(r)) ==> !r.is_change(),
        gate(t, loc, min, forbidden) matches GateView::Passed { at, .. } ==> caller_authorized(t, loc, min) && at <= t.len(),
{
}

/// A board endpoint asks for a change only once its caller is authenticated
/// and holds at least the role the endpoint requires; before that it only
/// reads.
pub proof fn law_changes_only_when_authorized(
    t: Seq<Outcome>,
    loc: Locate,
    min: BoardUserRole,
    forbidden: Seq<char>,
    then: spec_fn(int, BoardId) -> ApiStepView,
)
    ensures
        asks_change(gated(t, loc, min, forbidden, then)) ==> caller_authorized(t, loc, min),
{
    lemma_gate(t, loc, min, forbidden);
}

/// A board endpoint first asks to authenticate its caller, and a refused
/// bearer token is answered with its refusal, whatever follows it.
pub proof fn law_authentication_first(
    t: Seq<Outcome>,
    loc: Locate,
    min: BoardUserRole,
    forbidden: Seq<char>,
    then: spec_fn(int, BoardId) -> ApiStepView,
)
    ensures
        t.len() == 0 ==> gated(t, loc, min, forbidden, then) == Step::<Result<ReplyView, (StatusCode, Seq<char>)>>::Perform(Request::Authenticate),
        t.len() > 0 && bearer_refusal(t[0]) is Some ==> gated(t, loc, min, forbidden, then)
            == fail(auth_failure(bearer_refusal(t[0])->Some_0).0, auth_failure(bearer_refusal(t[0])->Some_0).1),
{
}

/// The role that authorization fetches is the authenticated caller's role
/// on the board that was found: once the board is found, the next request
/// is for that user's role on it.
pub proof fn law_role_request(
    t: Seq<Outcome>,
    loc: Locate,
    min: BoardUserRole,
    forbidden: Seq<char>,
    then: spec_fn(int, BoardId) -> ApiStepView,
    board: BoardId,
)
    requires
        t.len() > 0,
        bearer_accepted(t[0]),
        locate(t, loc) == (LocatedView::Found { board, at: t.len() as int }),
    ensures
        gated(t, loc, min, forbidden, then) == Step::<Result<ReplyView, (StatusCode, Seq<char>)>>::Perform(
            Request::UserRole { board_id: board, user_id: bearer_subject(t[0]) }),
{
}

/// Once the board is found and the caller's role on it is fetched, a caller
/// whose role does not pass the check is answered with the refusal, whatever
/// follows in the transcript: a non-member is told that they have no access
/// to the board, a member below `min` is told `forbidden`.
pub proof fn law_refusal(
    t: Seq<Outcome>,
    loc: Locate,
    min: BoardUserRole,
    forbidden: Seq<char>,
    then: spec_fn(int, BoardId) -> ApiStepView,
    board: BoardId,
    at: int,
    role: Option<BoardUserRole>,
)
    requires
        t.len() > at,
        bearer_accepted(t[0]),
        locate(t, loc) == (LocatedView::Found { board, at }),
        t[at] == Outcome::Role(Ok(role)),
        role_check(role, min, forbidden) is Err,
    ensures
        gated(t, loc, min, forbidden, then) == fail(role_check(role, min, forbidden)->Err_0.0, role_check(role, min, forbidden)->Err_0.1),
        role is None ==> gated(t, loc, min, forbidden, then) == fail(StatusCode::FORBIDDEN, "No access to this board"@),
{
}

/// The course of an endpoint whose work is a list of changes:
/// authorization, then the changes `ops` in order, answered with `done`.
pub open spec fn gated_changes(
    t: Seq<Outcome>,
    loc: Locate,
    min: BoardUserRole,
    forbidden: Seq<char>,
    ops: Seq<(Request, &'static str)>,
    done: StatusCode,
) -> ApiStepView {
    match gate(t, loc, min, forbidden) {
        GateView::Decided(s) => s,
        GateView::Passed { at, .. } => changes(t, at, ops, done),
    }
}

/// The course of an endpoint that creates one row: authorization, then the
/// creation `req`, answered with the new row's id.
pub open spec fn gated_create(
    t: Seq<Outcome>,
    loc: Locate,
    min: BoardUserRole,
    forbidden: Seq<char>,
    req: Request,
    msg: &'static str,
) -> ApiStepView {
    match gate(t, loc, min, forbidden) {
        GateView::Decided(s) => s,
        GateView::Passed { at, .. } => if t.len() <= at {
            Step::Perform(req)
        } else {
            match t[at] {
                Outcome::Created(Ok(id)) => succeed(ReplyView::Id(id)),
                Outcome::Created(Err(e)) => db_failure(msg@, e),
                _ => Step::Unexpected,
            }
        },
    }
}

/// Whether the transcript ends with the caller's role on the board: the
/// bearer token was accepted, the board was found as `loc` says, and the
/// last outcome is the fetched role (or that the caller is no member).
pub open spec fn role_just_fetched(t: Seq<Outcome>, loc: Locate) -> bool {
    &&& t.len() > 0
    &&& bearer_accepted(t[0])
    &&& locate(t, loc) matches LocatedView::Found { at, .. }
    &&& t.len() == at + 1
    &&& t[at] matches Outcome::Role(Ok(_))
}

/// A list of changes asks only for changes of the list.
proof fn lemma_changes_asks_only(t: Seq<Outcome>, at: int, ops: Seq<(Request, &'static str)>, done: StatusCode)
    ensures
        forall|r: Request| changes(t, at, ops, done) == Step::<Result<ReplyView, (StatusCode, Seq<char>)>>::Perform(r)
            ==> exists|i: int| 0 <= i < ops.len() && ops[i].0 == r,
    decreases ops.len(),
{
    if ops.len() > 0 && t.len() > at {
        if t[at] matches Outcome::Done(Ok(())) {
            lemma_changes_asks_only(t, at + 1, ops.drop_first(), done);
            assert forall|r: Request| changes(t, at, ops, done) == Step::<Result<ReplyView, (StatusCode, Seq<char>)>>::Perform(r)
                implies exists|i: int| 0 <= i < ops.len() && ops[i].0 == r by {
                let j = choose|j: int| 0 <= j < ops.drop_first().len() && ops.drop_first()[j].0 == r;
                assert(ops[j + 1].0 == r);
            }
        }
    }
}

/// A list of changes is answered with its success only after each change
/// was asked for, in order: the transcript cut just before the answer to
/// change `i` asks for change `i`.
proof fn lemma_changes_made(t: Seq<Outcome>, at: int, ops: Seq<(Request, &'static str)>, done: StatusCode)
    requires
        0 <= at <= t.len(),
        changes(t, at, ops, done) == succeed(ReplyView::Status(done)),
    ensures
        forall|i: int| 0 <= i < ops.len() ==> at + i < t.len()
            && #[trigger] changes(t.take(at + i), at, ops, done) == Step::<Result<ReplyView, (StatusCode, Seq<char>)>>::Perform(ops[i].0),
    decreases ops.len(),
{
    if ops.len() > 0 {
        assert(t.len() > at);
        assert(t[at] matches Outcome::Done(Ok(_)));
        assert(changes(t, at + 1, ops.drop_first(), done) == succeed(ReplyView::Status(done)));
        lemma_changes_made(t, at + 1, ops.drop_first(), done);
        assert forall|i: int| 0 <= i < ops.len() implies at + i < t.len()
            && #[trigger] changes(t.take(at + i), at, ops, done) == Step::<Result<ReplyView, (StatusCode, Seq<char>)>>::Perform(ops[i].0) by {
            if i == 0 {
                assert(t.take(at).len() <= at);
            } else {
                assert(at + 1 + (i - 1) == at + i);
                assert(changes(t.take(at + 1 + (i - 1)), at + 1, ops.drop_first(), done)
                    == Step::<Result<ReplyView, (StatusCode, Seq<char>)>>::Perform(ops.drop_first()[i - 1].0));
                let u = t.take(at + i);
                assert(u[at] == t[at]);
            }
        }
    }
}

/// Authorization reads only the transcript up to where it lets a request
/// through: cutting the transcript anywhere after that changes nothing.
proof fn lemma_gate_prefix(t: Seq<Outcome>, loc: Locate, min: BoardUserRole, forbidden: Seq<char>, k: int)
    requires
        gate(t, loc, min, forbidden) is Passed,
        gate(t, loc, min, forbidden)->Passed_at <= k <= t.len(),
    ensures
        gate(t.take(k), loc, min, forbidden) == gate(t, loc, min, forbidden),
{
    let u = t.take(k);
    assert(t[0] == u[0]);
    if k > 1 {
        assert(t[1] == u[1]);
    }
    if k > 2 {
        assert(t[2] == u[2]);
    }
    if k > 3 {
        assert(t[3] == u[3]);
    }
    assert(locate(u, loc) == locate(t, loc));
}

/// Once the caller's role on the board has just been fetched, the request
/// passes authorization exactly when the caller is authorized; otherwise it
/// is refused as forbidden.
pub proof fn lemma_gate_decides(t: Seq<Outcome>, loc: Locate, min: BoardUserRole, forbidden: Seq<char>)
    requires
        role_just_fetched(t, loc),
    ensures
        caller_authorized(t, loc, min) ==> (gate(t, loc, min, forbidden) matches GateView::Passed { at, .. } && at == t.len()),
        !caller_authorized(t, loc, min) ==> (gate(t, loc, min, forbidden) matches GateView::Decided(Step::Respond(Err((code, _))))
            && code == StatusCode::FORBIDDEN),
{
}

/// What an endpoint made of authorization and a list of changes does: it
/// asks only for changes of the list; once the caller's role was just
/// fetched, it asks for the first change exactly when the caller holds at
/// least `min`, and refuses the caller as forbidden otherwise; and it
/// answers with its success only after each change of the list was asked
/// for, the transcript cut at some earlier point asking for it.
pub proof fn law_gated_changes(
    t: Seq<Outcome>,
    loc: Locate,
    min: BoardUserRole,
    forbidden: Seq<char>,
    ops: Seq<(Request, &'static str)>,
    done: StatusCode,
)
    ensures
        forall|r: Request| gated_changes(t, loc, min, forbidden, ops, done) == Step::<Result<ReplyView, (StatusCode, Seq<char>)>>::Perform(r) && r.is_change()
            ==> exists|i: int| 0 <= i < ops.len() && ops[i].0 == r,
        role_just_fetched(t, loc) && ops.len() > 0 && caller_authorized(t, loc, min)
            ==> gated_changes(t, loc, min, forbidden, ops, done) == Step::<Result<ReplyView, (StatusCode, Seq<char>)>>::Perform(ops[0].0),
        role_just_fetched(t, loc) && !caller_authorized(t, loc, min)
            ==> (gated_changes(t, loc, min, forbidden, ops, done) matches Step::Respond(Err((code, _))) && code == StatusCode::FORBIDDEN),
        gated_changes(t, loc, min, forbidden, ops, done) == succeed(ReplyView::Status(done)) ==>
            forall|i: int| #![trigger ops[i]] 0 <= i < ops.len() ==> exists|k: int| 0 <= k < t.len()
                && #[trigger] gated_changes(t.take(k), loc, min, forbidden, ops, done)
                    == Step::<Result<ReplyView, (StatusCode, Seq<char>)>>::Perform(ops[i].0),
{
    lemma_gate(t, loc, min, forbidden);
    if role_just_fetched(t, loc) {
        lemma_gate_decides(t, loc, min, forbidden);
    }
    if let GateView::Passed { at, .. } = gate(t, loc, min, forbidden) {
        lemma_changes_asks_only(t, at, ops, done);
        if gated_changes(t, loc, min, forbidden, ops, done) == succeed(ReplyView::Status(done)) {
            lemma_changes_made(t, at, ops, done);
            assert forall|i: int| #![trigger ops[i]] 0 <= i < ops.len() implies exists|k: int| 0 <= k < t.len()
                && #[trigger] gated_changes(t.take(k), loc, min, forbidden, ops, done)
                    == Step::<Result<ReplyView, (StatusCode, Seq<char>)>>::Perform(ops[i].0) by {
                lemma_gate_prefix(t, loc, min, forbidden, at + i);
                assert(changes(t.take(at + i), at, ops, done) == Step::<Result<ReplyView, (StatusCode, Seq<char>)>>::Perform(ops[i].0));
                assert(gated_changes(t.take(at + i), loc, min, forbidden, ops, done)
                    == Step::<Result<ReplyView, (StatusCode, Seq<char>)>>::Perform(ops[i].0));
            }
        }
    }
}

/// What an endpoint made of authorization and one creation does: the only
/// change it asks for is `req`; once the caller's role was just fetched, it
/// asks for it exactly when the caller holds at least `min`, and refuses
/// the caller as forbidden otherwise; and it answers with an id only when
/// `req` was asked for and the outcome that followed created a row with
/// that id.
pub proof fn law_gated_create(
    t: Seq<Outcome>,
    loc: Locate,
    min: BoardUserRole,
    forbidden: Seq<char>,
    req: Request,
    msg: &'static str,
)
    ensures
        forall|r: Request| gated_create(t, loc, min, forbidden, req, msg) == Step::<Result<ReplyView, (StatusCode, Seq<char>)>>::Perform(r)
            && r.is_change() ==> r == req,
        role_just_fetched(t, loc) && caller_authorized(t, loc, min)
            ==> gated_create(t, loc, min, forbidden, req, msg) == Step::<Result<ReplyView, (StatusCode, Seq<char>)>>::Perform(req),
        role_just_fetched(t, loc) && !caller_authorized(t, loc, min)
            ==> (gated_create(t, loc, min, forbidden, req, msg) matches Step::Respond(Err((code, _))) && code == StatusCode::FORBIDDEN),
        forall|id: i64| gated_create(t, loc, min, forbidden, req, msg) == succeed(ReplyView::Id(id)) ==> exists|k: int| 0 <= k < t.len()
            && #[trigger] gated_create(t.take(k), loc, min, forbidden, req, msg)
                == Step::<Result<ReplyView, (StatusCode, Seq<char>)>>::Perform(req)
            && t[k] == Outcome::Created(Ok(id)),
{
    lemma_gate(t, loc, min, forbidden);
    if role_just_fetched(t, loc) {
        lemma_gate_decides(t, loc, min, forbidden);
    }
    if let GateView::Passed { at, .. } = gate(t, loc, min, forbidden) {
        if gated_create(t, loc, min, forbidden, req, msg) matches Step::Respond(Ok(ReplyView::Id(_))) {
            lemma_gate_prefix(t, loc, min, forbidden, at);
            assert(t.take(at).len() <= at);
            assert(gated_create(t.take(at), loc, min, forbidden, req, msg)
                == Step::<Result<ReplyView, (StatusCode, Seq<char>)>>::Perform(req));
        }
    }
}

} // verus!
