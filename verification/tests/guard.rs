use whatsoo::auth_middleware::{Auth, AuthMiddleware, AuthState, Rejection, TokenHeader};
use whatsoo::common::err::AppError;
use whatsoo::common::util::token_encode;
use whatsoo::model::user::UserToken;

const SECRET: &[u8] = b"an injected secret";

fn ann() -> UserToken {
    UserToken::new(7, "ann".to_string(), "ann@example.com".to_string(), 2_000_000_000)
}

fn header() -> TokenHeader {
    TokenHeader::Value(token_encode(&ann(), SECRET).unwrap())
}

#[test]
fn a_request_without_token_is_rejected_as_missing() {
    assert_eq!(
        Auth.check_at(&TokenHeader::Missing, SECRET, 0),
        AuthState::Rejected(Rejection::MissingCredential)
    );
    assert_eq!(
        Auth.check(&TokenHeader::Missing, SECRET),
        AuthState::Rejected(Rejection::MissingCredential)
    );
}

#[test]
fn an_unreadable_header_is_rejected_as_invalid() {
    assert_eq!(
        Auth.check_at(&TokenHeader::Unreadable, SECRET, 0),
        AuthState::Rejected(Rejection::InvalidOrExpiredCredential)
    );
}

#[test]
fn a_valid_token_authenticates() {
    assert_eq!(Auth.check_at(&header(), SECRET, 1_999_999_999), AuthState::Authenticated(ann()));
}

#[test]
fn expired_and_forged_tokens_are_rejected_alike() {
    let expired = Auth.check_at(&header(), SECRET, 2_000_000_000);
    let forged = Auth.check_at(&header(), b"another secret", 0);
    let garbage = Auth.check_at(&TokenHeader::Value("garbage".to_string()), SECRET, 0);
    let empty = Auth.check_at(&TokenHeader::Value(String::new()), SECRET, 0);
    assert_eq!(expired, AuthState::Rejected(Rejection::InvalidOrExpiredCredential));
    assert_eq!(forged, expired);
    assert_eq!(garbage, expired);
    assert_eq!(empty, expired);
}

#[test]
fn the_guard_reads_the_clock() {
    let now = std::time::SystemTime::now()
        .duration_since(std::time::UNIX_EPOCH)
        .unwrap()
        .as_secs() as usize;
    let live = UserToken::new(1, "bob".to_string(), "bob@example.com".to_string(), now + 600);
    let token = TokenHeader::Value(token_encode(&live, SECRET).unwrap());
    assert_eq!(Auth.check(&token, SECRET), AuthState::Authenticated(live.clone()));
    assert_eq!(UserToken::from_request(&token, SECRET), Ok(live));
    let spent = UserToken::new(1, "bob".to_string(), "bob@example.com".to_string(), now - 600);
    let token = TokenHeader::Value(token_encode(&spent, SECRET).unwrap());
    assert_eq!(
        Auth.check(&token, SECRET),
        AuthState::Rejected(Rejection::InvalidOrExpiredCredential)
    );
}

#[test]
fn rejections_become_client_errors() {
    assert_eq!(
        Rejection::MissingCredential.into_error(),
        AppError::BusinessError(401, "TOKEN不存在")
    );
    assert_eq!(
        Rejection::InvalidOrExpiredCredential.into_error(),
        AppError::BusinessError(401, "TOKEN已失效，请重新登录")
    );
}

#[test]
fn the_identity_of_a_request() {
    assert_eq!(UserToken::from_request_at(&header(), SECRET, 0), Ok(ann()));
    assert_eq!(
        UserToken::from_request_at(&TokenHeader::Missing, SECRET, 0),
        Err(AppError::BusinessError(401, "TOKEN不存在"))
    );
    assert_eq!(
        UserToken::from_request_at(&TokenHeader::Unreadable, SECRET, 0),
        Err(AppError::BusinessError(401, "TOKEN已失效，请重新登录"))
    );
    assert_eq!(
        UserToken::from_request_at(&header(), SECRET, 3_000_000_000),
        Err(AppError::BusinessError(401, "TOKEN已失效，请重新登录"))
    );
    assert_eq!(
        UserToken::from_request(&TokenHeader::Missing, SECRET),
        Err(AppError::BusinessError(401, "TOKEN不存在"))
    );
}

#[test]
fn a_guarded_service_is_reached_only_with_an_identity() {
    let guarded: AuthMiddleware<&str> = Auth.new_transform("the service");
    assert_eq!(guarded.service, "the service");
    let (service, identity) = guarded.call_at(&header(), SECRET, 0).unwrap();
    assert_eq!(*service, "the service");
    assert_eq!(identity, ann());
    assert_eq!(
        guarded.call_at(&TokenHeader::Missing, SECRET, 0),
        Err(Rejection::MissingCredential)
    );
    assert_eq!(
        guarded.call_at(&header(), SECRET, 2_000_000_000),
        Err(Rejection::InvalidOrExpiredCredential)
    );
}

#[test]
fn a_guarded_service_by_the_clock() {
    let now = std::time::SystemTime::now()
        .duration_since(std::time::UNIX_EPOCH)
        .unwrap()
        .as_secs() as usize;
    let guarded: AuthMiddleware<u8> = Auth.new_transform(5);
    let live = UserToken::new(1, "bob".to_string(), "bob@example.com".to_string(), now + 600);
    let token = TokenHeader::Value(token_encode(&live, SECRET).unwrap());
    assert_eq!(guarded.call(&token, SECRET), Ok((&5, live)));
    assert_eq!(guarded.call(&TokenHeader::Missing, SECRET), Err(Rejection::MissingCredential));
    assert_eq!(
        guarded.call(&TokenHeader::Value("x.y.z".to_string()), SECRET),
        Err(Rejection::InvalidOrExpiredCredential)
    );
}

#[test]
fn the_identity_of_a_request_by_the_clock() {
    let invalid = Err(AppError::BusinessError(401, "TOKEN已失效，请重新登录"));
    assert_eq!(UserToken::from_request(&TokenHeader::Unreadable, SECRET), invalid);
    assert_eq!(UserToken::from_request(&TokenHeader::Value("x.y.z".to_string()), SECRET), invalid);
    assert_eq!(UserToken::from_request(&TokenHeader::Value(String::new()), SECRET), invalid);
    let spent = UserToken::new(1, "bob".to_string(), "bob@example.com".to_string(), 1);
    let token = TokenHeader::Value(token_encode(&spent, SECRET).unwrap());
    assert_eq!(UserToken::from_request(&token, SECRET), invalid);
    let lasting = UserToken::new(1, "bob".to_string(), "bob@example.com".to_string(), usize::MAX);
    let token = TokenHeader::Value(token_encode(&lasting, SECRET).unwrap());
    assert_eq!(UserToken::from_request(&token, SECRET), Ok(lasting.clone()));
    assert_eq!(Auth.check(&token, SECRET), AuthState::Authenticated(lasting));
    assert_eq!(
        Auth.check(&TokenHeader::Unreadable, SECRET),
        AuthState::Rejected(Rejection::InvalidOrExpiredCredential)
    );
}
