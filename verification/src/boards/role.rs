//! The roles a user can hold on a board, and their order.
use vstd::prelude::*;
use vstd::utf8::is_ascii_chars;
use crate::text::{ascii_lower, lowercase_of, to_lowercase};

verus! {

/// A user's role on a board.  Owners may do everything, editors may change
/// the board's content, viewers may only read it.
#[derive(Clone, Copy, Debug, PartialEq, Eq, Structural, PartialOrd, Ord, Hash)]
pub enum BoardUserRole {
    Viewer,
    Editor,
    Owner,
}

impl BoardUserRole {
    /// The role's rank: the more a role may do, the higher its rank.
    pub open spec fn rank(self) -> nat {
        match self {
            BoardUserRole::Viewer => 0,
            BoardUserRole::Editor => 1,
            BoardUserRole::Owner => 2,
        }
    }

    /// Whether a holder of this role has at least the rights of `required`.
    pub open spec fn spec_is_at_least(self, required: BoardUserRole) -> bool {
        self.rank() >= required.rank()
    }

    /// Whether a holder of this role has at least the rights of `required`.
    pub fn is_at_least(&self, required: BoardUserRole) -> (b: bool)
        ensures
            b == self.spec_is_at_least(required),
    {
        self.rank_u8() >= required.rank_u8()
    }

    fn rank_u8(&self) -> (r: u8)
        ensures
            r == self.rank(),
    {
        match self {
            BoardUserRole::Viewer => 0,
            BoardUserRole::Editor => 1,
            BoardUserRole::Owner => 2,
        }
    }

    /// The name under which the role is stored in the database.
    pub open spec fn spec_db_name(self) -> Seq<char> {
        match self {
            BoardUserRole::Viewer => "viewer"@,
            BoardUserRole::Editor => "editor"@,
            BoardUserRole::Owner => "owner"@,
        }
    }

    /// The name under which the role is stored in the database.
    pub fn db_name(&self) -> (s: &'static str)
        ensures
            s@ == self.spec_db_name(),
    {
        match self {
            BoardUserRole::Viewer => "viewer",
            BoardUserRole::Editor => "editor",
            BoardUserRole::Owner => "owner",
        }
    }
}

/// The role that a lower-cased stored name denotes; any name that is not
/// one of the three falls back to `Viewer`.
pub open spec fn role_of_lowercase(s: Seq<char>) -> BoardUserRole {
    if s == "owner"@ {
        BoardUserRole::Owner
    } else if s == "editor"@ {
        BoardUserRole::Editor
    } else {
        BoardUserRole::Viewer
    }
}

/// The role that a lower-cased stored name denotes (see `role_of_lowercase`).
pub fn role_from_lowercase(s: &str) -> (r: BoardUserRole)
    ensures
        r == role_of_lowercase(s@),
{
    let owner = "owner";
    let editor = "editor";
    if str_equal(s, owner) {
        BoardUserRole::Owner
    } else if str_equal(s, editor) {
        BoardUserRole::Editor
    } else {
        BoardUserRole::Viewer
    }
}

/// Whether two strings hold the same characters.
pub fn str_equal(a: &str, b: &str) -> (r: bool)
    ensures
        r == (a@ == b@),
{
    let n = a.unicode_len();
    if n != b.unicode_len() {
        return false;
    }
    let mut i: usize = 0;
    while i < n
        invariant
            n == a@.len(),
            n == b@.len(),
            i <= n,
            forall|j: int| 0 <= j < i ==> a@[j] == b@[j],
        decreases n - i,
    {
        if a.get_char(i) != b.get_char(i) {
            return false;
        }
        i = i + 1;
    }
    assert(a@ =~= b@);
    true
}

/// The role a stored role name denotes, compared without regard to case.
pub open spec fn role_of_stored_name(s: Seq<char>) -> BoardUserRole {
    role_of_lowercase(lowercase_of(s))
}

impl From<String> for BoardUserRole {
    fn from(s: String) -> (r: Self) {
        let lower = to_lowercase(s.as_str());
        role_from_lowercase(lower.as_str())
    }
}

impl vstd::std_specs::convert::FromSpecImpl<String> for BoardUserRole {
    open spec fn obeys_from_spec() -> bool {
        true
    }

    open spec fn from_spec(s: String) -> BoardUserRole {
        role_of_stored_name(s@)
    }
}

/// "At least" is a total order on roles: reflexive, transitive,
/// antisymmetric and total, with `Owner` on top and `Viewer` at the bottom.
pub proof fn law_role_order(a: BoardUserRole, b: BoardUserRole, c: BoardUserRole)
    ensures
        a.spec_is_at_least(a),
        a.spec_is_at_least(b) && b.spec_is_at_least(c) ==> a.spec_is_at_least(c),
        a.spec_is_at_least(b) && b.spec_is_at_least(a) ==> a == b,
        a.spec_is_at_least(b) || b.spec_is_at_least(a),
        BoardUserRole::Owner.spec_is_at_least(a),
        a.spec_is_at_least(BoardUserRole::Viewer),
{
}

/// A role read back from its stored name is the role that was stored.
pub proof fn law_stored_name_round_trip(r: BoardUserRole)
    ensures
        role_of_lowercase(r.spec_db_name()) == r,
{
    reveal_strlit("owner");
    reveal_strlit("editor");
    reveal_strlit("viewer");
    assert("viewer"@.len() != "owner"@.len());
    assert("viewer"@[0] != "editor"@[0]);
    assert("editor"@.len() != "owner"@.len());
}

/// Reading a role from a stored name of ASCII characters ignores letter
/// case: the name and its lower-cased form denote the same role, and so do
/// two names that differ only in the case of their letters (`OWNER`,
/// `Owner` and `owner` all denote `Owner`).
pub proof fn law_role_ignores_case(s: Seq<char>, u: Seq<char>)
    requires
        is_ascii_chars(s),
        is_ascii_chars(u),
    ensures
        role_of_stored_name(lowercase_of(s)) == role_of_stored_name(s),
        s.len() == u.len() && (forall|i: int| 0 <= i < s.len() ==> ascii_lower(#[trigger] s[i]) == ascii_lower(u[i]))
            ==> role_of_stored_name(s) == role_of_stored_name(u),
{
    let l = lowercase_of(s);
    assert forall|i: int| 0 <= i < l.len() implies '\0' <= #[trigger] l[i] <= '\u{7f}' && ascii_lower(l[i]) == l[i] by {
        assert(l[i] == ascii_lower(s[i]));
    }
    assert(lowercase_of(l) =~= l);
    if s.len() == u.len() && (forall|i: int| 0 <= i < s.len() ==> ascii_lower(#[trigger] s[i]) == ascii_lower(u[i])) {
        assert(lowercase_of(s) =~= lowercase_of(u));
    }
}

} // verus!
