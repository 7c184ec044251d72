use taskboard::boards::api::utils::{ensure_minimum_role, map_auth_error};
use taskboard::boards::board::CREATOR_ROLE;
use taskboard::boards::role::{role_from_lowercase, BoardUserRole};
use taskboard::boards::utils::{DbError, TraceError};
use taskboard::auth::utils::AuthError;
use taskboard::http::StatusCode;
use taskboard::text::to_lowercase;

const ROLES: [BoardUserRole; 3] = [BoardUserRole::Viewer, BoardUserRole::Editor, BoardUserRole::Owner];

#[test]
fn role_order_table() {
    assert!(BoardUserRole::Owner.is_at_least(BoardUserRole::Owner));
    assert!(BoardUserRole::Owner.is_at_least(BoardUserRole::Editor));
    assert!(BoardUserRole::Owner.is_at_least(BoardUserRole::Viewer));
    assert!(!BoardUserRole::Editor.is_at_least(BoardUserRole::Owner));
    assert!(BoardUserRole::Editor.is_at_least(BoardUserRole::Editor));
    assert!(BoardUserRole::Editor.is_at_least(BoardUserRole::Viewer));
    assert!(!BoardUserRole::Viewer.is_at_least(BoardUserRole::Owner));
    assert!(!BoardUserRole::Viewer.is_at_least(BoardUserRole::Editor));
    assert!(BoardUserRole::Viewer.is_at_least(BoardUserRole::Viewer));
}

#[test]
fn role_order_is_total_and_transitive() {
    for a in ROLES {
        assert!(a.is_at_least(a));
        for b in ROLES {
            assert!(a.is_at_least(b) || b.is_at_least(a));
            if a.is_at_least(b) && b.is_at_least(a) {
                assert_eq!(a, b);
            }
            for c in ROLES {
                if a.is_at_least(b) && b.is_at_least(c) {
                    assert!(a.is_at_least(c));
                }
            }
        }
    }
}

#[test]
fn role_order_matches_derived_ord() {
    for a in ROLES {
        for b in ROLES {
            assert_eq!(a.is_at_least(b), a >= b);
        }
    }
}

#[test]
fn stored_names_round_trip() {
    for r in ROLES {
        assert_eq!(role_from_lowercase(r.db_name()), r);
        assert_eq!(BoardUserRole::from(r.db_name().to_string()), r);
    }
    assert_eq!(BoardUserRole::Owner.db_name(), "owner");
    assert_eq!(BoardUserRole::Editor.db_name(), "editor");
    assert_eq!(BoardUserRole::Viewer.db_name(), "viewer");
}

#[test]
fn role_from_string_ignores_case() {
    assert_eq!(BoardUserRole::from("OWNER".to_string()), BoardUserRole::Owner);
    assert_eq!(BoardUserRole::from("Editor".to_string()), BoardUserRole::Editor);
    assert_eq!(BoardUserRole::from("vIeWeR".to_string()), BoardUserRole::Viewer);
}

#[test]
fn unknown_role_string_is_viewer() {
    assert_eq!(BoardUserRole::from("admin".to_string()), BoardUserRole::Viewer);
    assert_eq!(BoardUserRole::from(String::new()), BoardUserRole::Viewer);
    assert_eq!(role_from_lowercase("OWNER"), BoardUserRole::Viewer);
}

#[test]
fn creator_is_owner() {
    assert_eq!(CREATOR_ROLE, BoardUserRole::Owner);
}

#[test]
fn ensure_minimum_role_accepts_enough_rights() {
    assert_eq!(ensure_minimum_role(Some(BoardUserRole::Owner), BoardUserRole::Owner, "nope"), Ok(()));
    assert_eq!(ensure_minimum_role(Some(BoardUserRole::Editor), BoardUserRole::Viewer, "nope"), Ok(()));
    assert_eq!(ensure_minimum_role(Some(BoardUserRole::Viewer), BoardUserRole::Viewer, "nope"), Ok(()));
}

#[test]
fn ensure_minimum_role_refuses_low_role() {
    assert_eq!(
        ensure_minimum_role(Some(BoardUserRole::Viewer), BoardUserRole::Editor, "Only editors"),
        Err((StatusCode::FORBIDDEN, "Only editors".to_string()))
    );
    assert_eq!(
        ensure_minimum_role(Some(BoardUserRole::Editor), BoardUserRole::Owner, "Only owners"),
        Err((StatusCode::FORBIDDEN, "Only owners".to_string()))
    );
}

#[test]
fn ensure_minimum_role_refuses_non_member() {
    assert_eq!(
        ensure_minimum_role(None, BoardUserRole::Viewer, "Only owners"),
        Err((StatusCode::FORBIDDEN, "No access to this board".to_string()))
    );
}

#[test]
fn auth_errors_map_to_unauthorized() {
    assert_eq!(map_auth_error(AuthError::InvalidToken), (StatusCode::UNAUTHORIZED, "Invalid token".to_string()));
    assert_eq!(map_auth_error(AuthError::ExpiredToken), (StatusCode::UNAUTHORIZED, "Expired token".to_string()));
}

#[test]
fn trace_err_keeps_success() {
    let r: Result<i32, DbError> = Ok(7);
    assert_eq!(r.trace_err("failed to fetch row"), Ok(7));
    let r: Result<i32, DbError> = Ok(8);
    assert_eq!(r.trace_warn("failed to fetch row"), Ok(8));
}

#[test]
fn trace_err_names_the_failure() {
    let r: Result<i32, DbError> = Err(DbError { message: "RowNotFound".to_string() });
    assert_eq!(r.trace_err("failed to fetch row"), Err("failed to fetch row: RowNotFound".to_string()));
    let r: Result<(), DbError> = Err(DbError { message: "disk full".to_string() });
    assert_eq!(r.trace_warn("Failed to create card"), Err("Failed to create card: disk full".to_string()));
}

#[test]
fn status_codes() {
    assert_eq!(StatusCode::OK.as_u16(), 200);
    assert_eq!(StatusCode::CREATED.as_u16(), 201);
    assert_eq!(StatusCode::BAD_REQUEST.as_u16(), 400);
    assert_eq!(StatusCode::UNAUTHORIZED.as_u16(), 401);
    assert_eq!(StatusCode::FORBIDDEN.as_u16(), 403);
    assert_eq!(StatusCode::NOT_FOUND.as_u16(), 404);
    assert_eq!(StatusCode::CONFLICT.as_u16(), 409);
    assert_eq!(StatusCode::INTERNAL_SERVER_ERROR.as_u16(), 500);
}

#[test]
fn role_name_and_its_lowercase_agree() {
    for name in ["OWNER", "Owner", "eDiToR", "VIEWER", "Admin", ""] {
        let lower = to_lowercase(name);
        assert_eq!(BoardUserRole::from(name.to_string()), BoardUserRole::from(lower.clone()));
        assert_eq!(lower, name.to_ascii_lowercase());
    }
}
