use otp_auth::config::Jwt;
use otp_auth::enums::UserRole;
use otp_auth::jwt::{encode_jwt, encode_jwt_at, Claims, TokenError};
use otp_auth::middlewares::{
    admit_at, bearer_token_of, extract_token, role_allowed, route_admits, AuthState, RequireAdminAuth,
    RequireAuth,
};
use otp_auth::model::UserModel;
use otp_auth::response::{Rejection, RepositoryError};

const NOW: i64 = 1_700_000_000;

fn jwt() -> Jwt {
    Jwt { secret: "my-ultra-secure-secret".to_string() }
}

fn user(id: &str, role_id: i32, active: i8) -> UserModel {
    UserModel {
        id: id.to_string(),
        name: "Name".to_string(),
        mobile: "966512345678".to_string(),
        mobile_token: Some("123456".to_string()),
        mobile_token_expire_at: Some(NOW + 60),
        email: Some("a@b.c".to_string()),
        gender: None,
        role_id,
        active,
        protected: 1,
        created_at: Some(10),
        updated_at: None,
    }
}

fn token_for(id: &str) -> String {
    encode_jwt_at(&jwt(), id.to_string(), 3600, NOW).unwrap()
}

fn rejected(state: &AuthState) -> Option<Rejection> {
    match state {
        AuthState::Rejected { reason, .. } => Some(*reason),
        _ => None,
    }
}

#[test]
fn test_bearer_token_of_header() {
    assert_eq!(bearer_token_of("Bearer abc.def.ghi"), Some("abc.def.ghi".to_string()));
    assert_eq!(bearer_token_of("Bearer "), Some(String::new()));
    assert_eq!(bearer_token_of("Bearer"), None);
    assert_eq!(bearer_token_of("bearer abc"), None);
    assert_eq!(bearer_token_of("Basic dXNlcjpwYXNz"), None);
    assert_eq!(bearer_token_of(""), None);
    assert_eq!(bearer_token_of("Bearer é.ü"), Some("é.ü".to_string()));
}

#[test]
fn test_cookie_comes_before_header() {
    assert_eq!(
        extract_token(Some("from-cookie".to_string()), Some("Bearer from-header".to_string())),
        Some("from-cookie".to_string())
    );
    assert_eq!(extract_token(None, Some("Bearer from-header".to_string())), Some("from-header".to_string()));
    assert_eq!(extract_token(None, Some("from-header".to_string())), None);
    assert_eq!(extract_token(None, None), None);
}

#[test]
fn test_request_without_token_is_missing_token() {
    let state = admit_at(&jwt(), None, None, NOW);
    assert_eq!(rejected(&state), Some(Rejection::MissingToken));
    let state = RequireAuth {}.new_transform().call(&jwt(), None, Some("Basic abc".to_string()));
    assert_eq!(rejected(&state), Some(Rejection::MissingToken));
}

#[test]
fn test_bad_token_is_unauthorized_and_old_token_is_expired() {
    let state = admit_at(&jwt(), Some("garbage".to_string()), None, NOW);
    assert_eq!(rejected(&state), Some(Rejection::Unauthorized));
    let state = admit_at(&jwt(), Some(String::new()), None, NOW);
    assert_eq!(rejected(&state), Some(Rejection::Unauthorized));
    let state = admit_at(&jwt(), None, Some(format!("Bearer {}", token_for("u-1"))), NOW + 3600);
    assert_eq!(rejected(&state), Some(Rejection::Expired));
}

#[test]
fn test_valid_token_leads_to_identity_load_and_authorized() {
    let middleware = RequireAuth {}.new_transform();
    let state = middleware.call_at(&jwt(), None, Some(format!("Bearer {}", token_for("u-1"))), NOW + 5);
    match &state {
        AuthState::IdentityLoad { subject_id } => assert_eq!(subject_id, "u-1"),
        other => panic!("unexpected state {other:?}"),
    }
    let state = middleware.identity_loaded(state, Ok(Some(user("u-1", 3, 0))));
    match state {
        AuthState::Authorized { identity } => {
            assert_eq!(identity.id, "u-1");
            assert_eq!(identity.mobile, "966512345678");
            assert_eq!(identity.email.as_deref(), Some("a@b.c"));
            assert_eq!(identity.role_id, 3);
            assert!(!identity.active);
            assert!(identity.protected);
            assert_eq!(identity.createdAt, Some(10));
            assert_eq!(identity.updatedAt, None);
        }
        other => panic!("unexpected state {other:?}"),
    }
}

#[test]
fn test_token_issued_now_is_admitted_now() {
    let token = encode_jwt(&jwt(), "u-9".to_string(), 60).unwrap();
    let state = RequireAuth {}.new_transform().call(&jwt(), Some(token), None);
    assert!(matches!(state, AuthState::IdentityLoad { .. }));
}

#[test]
fn test_identity_load_failures_are_internal_errors() {
    let load = || AuthState::IdentityLoad { subject_id: "u-1".to_string() };
    let middleware = RequireAuth {}.new_transform();
    assert_eq!(rejected(&middleware.identity_loaded(load(), Err(RepositoryError {}))), Some(Rejection::InternalError));
    assert_eq!(rejected(&middleware.identity_loaded(load(), Ok(None))), Some(Rejection::InternalError));
    assert_eq!(
        rejected(&middleware.identity_loaded(load(), Ok(Some(user("someone-else", 1, 1))))),
        Some(Rejection::InternalError)
    );
}

#[test]
fn test_admin_route_forbids_user_role_and_inactive_admin() {
    let middleware = RequireAdminAuth::allowed_roles(vec![UserRole::Admin]).new_transform();
    let token = token_for("u-1");
    let load = || middleware.call_at(&jwt(), Some(token.clone()), None, NOW + 1);

    let as_user = middleware.identity_loaded(load(), Ok(Some(user("u-1", 3, 1))));
    assert_eq!(rejected(&as_user), Some(Rejection::Forbidden));

    let inactive_admin = middleware.identity_loaded(load(), Ok(Some(user("u-1", 1, 0))));
    assert_eq!(rejected(&inactive_admin), Some(Rejection::Forbidden));

    let unknown_role = middleware.identity_loaded(load(), Ok(Some(user("u-1", 7, 1))));
    assert_eq!(rejected(&unknown_role), Some(Rejection::Forbidden));

    let admin = middleware.identity_loaded(load(), Ok(Some(user("u-1", 1, 1))));
    match admin {
        AuthState::Authorized { identity } => {
            assert_eq!(identity.id, "u-1");
            assert_eq!(identity.role_id, 1);
            assert!(identity.active);
        }
        other => panic!("unexpected state {other:?}"),
    }
}

#[test]
fn test_admin_route_with_several_roles() {
    let guard = RequireAdminAuth::allowed_roles(vec![UserRole::Admin, UserRole::Moderator]);
    assert_eq!(guard.allowed_roles, vec![UserRole::Admin, UserRole::Moderator]);
    let middleware = guard.new_transform();
    let load = || AuthState::IdentityLoad { subject_id: "u-1".to_string() };
    assert!(matches!(
        middleware.identity_loaded(load(), Ok(Some(user("u-1", 2, 1)))),
        AuthState::Authorized { .. }
    ));
    assert_eq!(
        rejected(&middleware.identity_loaded(load(), Ok(Some(user("u-1", 3, 5))))),
        Some(Rejection::Forbidden)
    );
    // any non-zero flag counts as active
    assert!(matches!(
        middleware.identity_loaded(load(), Ok(Some(user("u-1", 1, -1)))),
        AuthState::Authorized { .. }
    ));
    let nobody = RequireAdminAuth::allowed_roles(vec![]).new_transform();
    assert_eq!(
        rejected(&nobody.identity_loaded(load(), Ok(Some(user("u-1", 1, 1))))),
        Some(Rejection::Forbidden)
    );
}

#[test]
fn test_admin_middleware_reads_the_clock() {
    let middleware = RequireAdminAuth::allowed_roles(vec![UserRole::Admin]).new_transform();
    let token = encode_jwt(&jwt(), "u-1".to_string(), 60).unwrap();
    assert!(matches!(middleware.call(&jwt(), None, Some(format!("Bearer {token}"))), AuthState::IdentityLoad { .. }));
    assert_eq!(rejected(&middleware.call(&jwt(), None, None)), Some(Rejection::MissingToken));
}

#[test]
fn test_role_helpers() {
    assert!(role_allowed(&vec![UserRole::User, UserRole::Admin], UserRole::Admin));
    assert!(!role_allowed(&vec![UserRole::User], UserRole::Admin));
    assert!(!role_allowed(&vec![], UserRole::User));
    assert!(route_admits(None, &user("u", 9, 0)));
    assert!(route_admits(Some(&vec![UserRole::User]), &user("u", 3, 1)));
    assert!(!route_admits(Some(&vec![UserRole::User]), &user("u", 3, 0)));
}

#[test]
fn test_single_transitions() {
    let start = AuthState::begin();
    assert!(!start.is_terminal());
    let checking = start.on_credentials(Some("t".to_string()), None);
    assert!(matches!(&checking, AuthState::TokenValidation { token } if token == "t"));
    let loading = checking.on_token_checked(Ok(Claims { exp: 2, iat: 1, id: "u".to_string() }));
    assert!(matches!(&loading, AuthState::IdentityLoad { subject_id } if subject_id == "u"));

    let refused = AuthState::TokenValidation { token: "t".to_string() };
    assert_eq!(rejected(&refused.on_token_checked(Err(TokenError::ExpiredToken))), Some(Rejection::Expired));
    let refused = AuthState::TokenValidation { token: "t".to_string() };
    assert_eq!(rejected(&refused.on_token_checked(Err(TokenError::InvalidToken))), Some(Rejection::Unauthorized));
    let refused = AuthState::TokenValidation { token: "t".to_string() };
    assert_eq!(rejected(&refused.on_token_checked(Err(TokenError::InvalidSubject))), Some(Rejection::Unauthorized));
    let refused = AuthState::TokenValidation { token: "t".to_string() };
    assert_eq!(rejected(&refused.on_token_checked(Err(TokenError::InternalError))), Some(Rejection::InternalError));
}

#[test]
fn test_handler_failure_is_wrapped_and_ends_stay() {
    let authorized = || AuthState::IdentityLoad { subject_id: "u-1".to_string() }
        .on_identity_loaded(Ok(Some(user("u-1", 1, 1))), None);
    let served = authorized().on_handler_finished(Ok(()));
    assert!(matches!(served, AuthState::Authorized { .. }));
    assert!(served.rejection_body().is_none());

    // the failure of a handler comes out as a fault of the server, with the handler's text
    let failed = authorized().on_handler_finished(Err("disk is full".to_string()));
    match &failed {
        AuthState::Rejected { reason, message } => {
            assert_eq!(*reason, Rejection::InternalError);
            assert_eq!(message, "disk is full");
        }
        other => panic!("unexpected state {other:?}"),
    }
    let body = failed.rejection_body().unwrap();
    assert_eq!(body.status, 500);
    assert_eq!(body.message, "disk is full");
    assert!(body.validation_errors.is_none());

    // an event that is not awaited
    assert_eq!(rejected(&AuthState::begin().on_handler_finished(Ok(()))), Some(Rejection::InternalError));
    assert_eq!(
        rejected(&AuthState::begin().on_handler_finished(Err("late".to_string()))),
        Some(Rejection::InternalError)
    );
    assert_eq!(
        rejected(&AuthState::begin().on_token_checked(Err(TokenError::ExpiredToken))),
        Some(Rejection::InternalError)
    );
    let kept = AuthState::turn_away(Rejection::Expired).on_handler_finished(Err("late".to_string()));
    assert_eq!(kept.rejection_body().unwrap().message, "Token is expired");
    let turned_away = AuthState::turn_away(Rejection::Expired);
    assert_eq!(rejected(&turned_away.on_credentials(None, None)), Some(Rejection::Expired));
    assert!(matches!(authorized().on_credentials(None, None), AuthState::Authorized { .. }));
    assert!(authorized().is_terminal());
}

#[test]
fn test_rejections_of_the_interceptor_carry_their_message() {
    let expected = [
        (Rejection::MissingToken, 401, "No token found"),
        (Rejection::Unauthorized, 401, "Invalid token"),
        (Rejection::Expired, 401, "Token is expired"),
        (Rejection::Forbidden, 403, "Forbidden"),
        (Rejection::InternalError, 500, "Server Error"),
    ];
    for (reason, status, message) in expected {
        let body = AuthState::turn_away(reason).rejection_body().unwrap();
        assert_eq!((body.status, body.message.as_str()), (status, message));
        assert!(body.validation_errors.is_none());
    }
    let missing = admit_at(&jwt(), None, None, NOW).rejection_body().unwrap();
    assert_eq!((missing.status, missing.message.as_str()), (401, "No token found"));
    assert!(AuthState::begin().rejection_body().is_none());
    assert!(AuthState::IdentityLoad { subject_id: "u".to_string() }.rejection_body().is_none());
}
