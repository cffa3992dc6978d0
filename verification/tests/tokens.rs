use plotfed::auth::{
    check_server, ExternalServer, ServerAuthError, JWT_EXPIRY, JWT_VERSION,
};
use plotfed::instance::SendInstance;

fn claim() -> SendInstance {
    SendInstance { key: "a2V5".to_string(), domain: "peer.example".to_string() }
}

fn token(iat: u64, exp: u64) -> ExternalServer {
    ExternalServer { sub: claim(), iat, exp, jti: 5 }
}

#[test]
fn token_that_did_not_verify_is_refused() {
    assert_eq!(check_server(None, 0), Err(ServerAuthError::CannotVerify));
    assert_eq!(ServerAuthError::CannotVerify.status(), 401);
    assert_eq!(ServerAuthError::CannotVerify.message(), "Cannot verify token");
}

#[test]
fn token_past_its_expiry_is_refused() {
    let now = JWT_VERSION + 20_000;
    assert_eq!(
        check_server(Some(token(JWT_VERSION, now - 1)), now),
        Err(ServerAuthError::Expired)
    );
    assert_eq!(ServerAuthError::Expired.status(), 401);
    assert_eq!(ServerAuthError::Expired.message(), "Token expired");
}

#[test]
fn token_from_before_the_fence_is_refused() {
    let now = JWT_VERSION + 5;
    assert_eq!(
        check_server(Some(token(JWT_VERSION - 1, now + 100)), now),
        Err(ServerAuthError::VersionMismatch)
    );
    assert_eq!(ServerAuthError::VersionMismatch.status(), 401);
    assert_eq!(
        ServerAuthError::VersionMismatch.message(),
        "Version mismatch (please regenerate token)"
    );
}

#[test]
fn fence_is_judged_before_expiry() {
    assert_eq!(
        check_server(Some(token(3, 4)), JWT_VERSION),
        Err(ServerAuthError::VersionMismatch)
    );
}

#[test]
fn token_is_good_through_its_last_second() {
    let t = token(JWT_VERSION, JWT_VERSION + 10);
    assert_eq!(check_server(Some(t.clone()), JWT_VERSION + 10), Ok(t.clone()));
    assert_eq!(check_server(Some(t.clone()), JWT_VERSION + 11), Err(ServerAuthError::Expired));
    assert_eq!(check_server(Some(t.clone()), 0), Ok(t));
}

#[test]
fn fresh_token_lasts_three_hours() {
    assert_eq!(JWT_EXPIRY, 60 * 60 * 3);
    assert_eq!(JWT_VERSION, 1747450744);
    let now = 1_800_000_000;
    let t = ExternalServer::issue(claim(), now, 99);
    assert_eq!(t.iat, now);
    assert_eq!(t.exp, 1_800_010_800);
    assert_eq!(t.jti, 99);
    assert_eq!(t.sub, claim());
    assert!(t.iat < t.exp);
    assert_eq!(check_server(Some(t.clone()), now), Ok(t.clone()));
    assert_eq!(check_server(Some(t.clone()), now + JWT_EXPIRY), Ok(t.clone()));
    assert_eq!(check_server(Some(t), now + JWT_EXPIRY + 1), Err(ServerAuthError::Expired));
}

#[test]
fn token_issued_before_the_fence_is_never_taken() {
    let t = ExternalServer::issue(claim(), JWT_VERSION - 1, 1);
    assert_eq!(check_server(Some(t), JWT_VERSION - 1), Err(ServerAuthError::VersionMismatch));
}
