use base64::Engine;
use ed25519_dalek::{Signer, SigningKey, Verifier};
use plotfed::api::instance::InstanceApi;
use plotfed::handshake::{
    challenge, judge_response, sign_url, FetchTokenResponse, Ping, PingError, TokenRequest,
    PEER_TIMEOUT,
};
use plotfed::instance::{ExternalDomain, InstanceError, SendInstance};
use plotfed::keys::{KeyFormatError, PublicKey};
use plotfed::store::{Command, Reply, Step, Store, VerificationResponse};

fn encoded(bytes: &[u8]) -> String {
    base64::engine::general_purpose::URL_SAFE.encode(bytes)
}

fn at(name: &str) -> ExternalDomain {
    ExternalDomain::convert(name.to_string()).unwrap()
}

fn public(seed: u8) -> PublicKey {
    PublicKey::from_bytes(&SigningKey::from_bytes(&[seed; 32]).verifying_key().to_bytes()).unwrap()
}

/// What the peer with the secret key `seed` answers to a challenge.
fn answer(seed: u8, challenge: &str) -> VerificationResponse {
    let key = SigningKey::from_bytes(&[seed; 32]);
    VerificationResponse {
        server_key: encoded(&key.verifying_key().to_bytes()),
        signature: encoded(&key.sign(challenge.as_bytes()).to_bytes()),
    }
}

fn api() -> InstanceApi {
    InstanceApi { store: Store::new([11; 32]), domain: at("here.example") }
}

#[test]
fn challenge_carries_the_marker_and_the_millisecond() {
    assert_eq!(challenge(0, 0).unwrap(), "DFTOOLS VERIFY 1970-01-01 00:00:00.000");
    assert_eq!(
        challenge(1747450744123, 3600).unwrap(),
        "DFTOOLS VERIFY 2025-05-17 03:59:04.123"
    );
    assert_eq!(
        challenge(1747450744123, -18000).unwrap(),
        "DFTOOLS VERIFY 2025-05-16 21:59:04.123"
    );
    assert_eq!(challenge(-1, 0).unwrap(), "DFTOOLS VERIFY 1969-12-31 23:59:59.999");
    assert_ne!(challenge(1000, 0), challenge(1001, 0));
}

#[test]
fn challenge_needs_an_instant_in_range() {
    assert_eq!(challenge(i64::MAX, 0), None);
    assert_eq!(challenge(i64::MIN, 0), None);
    assert_eq!(challenge(0, 86_400), None);
    assert_eq!(challenge(0, -86_400), None);
    assert!(challenge(0, 86_399).is_some());
}

#[test]
fn peers_are_given_a_bounded_time() {
    assert!(PEER_TIMEOUT > 0);
    assert!(PEER_TIMEOUT <= 60);
}

#[test]
fn peers_sign_at_a_fixed_path() {
    assert_eq!(sign_url(&at("peer.example"), false), "https://peer.example/instance/v0/sign");
    assert_eq!(sign_url(&at("peer.example"), true), "http://peer.example/instance/v0/sign");
    assert_eq!(sign_url(&at("localhost:8080"), true), "http://localhost:8080/instance/v0/sign");
    assert_eq!(sign_url(&at("peer.example."), false), "https://peer.example./instance/v0/sign");
}

#[test]
fn good_answer_proves_its_key() {
    let text = "DFTOOLS VERIFY 2025-05-17 03:59:04.123";
    assert_eq!(judge_response(text, &answer(5, text)), Ok(public(5)));
}

#[test]
fn answer_must_sign_exactly_the_challenge() {
    let text = "DFTOOLS VERIFY 2025-05-17 03:59:04.123";
    let other = "DFTOOLS VERIFY 2025-05-17 03:59:04.124";
    assert_eq!(judge_response(other, &answer(5, text)), Err(PingError::InvalidSignature));
    let mut mixed = answer(5, text);
    mixed.server_key = encoded(&public(6).bytes);
    assert_eq!(judge_response(text, &mixed), Err(PingError::InvalidSignature));
}

#[test]
fn answer_with_a_fault_proves_nothing() {
    let text = "challenge";
    let good = answer(5, text);
    let with = |server_key: &str, signature: &str| VerificationResponse {
        server_key: server_key.to_string(),
        signature: signature.to_string(),
    };
    assert_eq!(
        judge_response(text, &with("???", &good.signature)),
        Err(PingError::ServerKey(KeyFormatError::Encoding))
    );
    assert_eq!(
        judge_response(text, &with("AAAA", &good.signature)),
        Err(PingError::ServerKey(KeyFormatError::Length))
    );
    assert_eq!(
        judge_response(text, &with(&good.server_key, "???")),
        Err(PingError::SignatureEncoding)
    );
    assert_eq!(
        judge_response(text, &with(&good.server_key, "AAAA")),
        Err(PingError::SignatureLength)
    );
    assert_eq!(
        judge_response(text, &with(&good.server_key, &encoded(&[0; 64]))),
        Err(PingError::InvalidSignature)
    );
    assert_eq!(
        judge_response(text, &with("???", "???")),
        Err(PingError::ServerKey(KeyFormatError::Encoding))
    );
}

#[test]
fn asking_a_peer_sends_the_challenge() {
    let step = Ping::start(at("peer.example"), "c".to_string());
    let ping = match step {
        Step::Next(ping, command) => {
            assert_eq!(
                command,
                Command::AskSignature { domain: at("peer.example"), challenge: "c".to_string() }
            );
            ping
        }
        _ => panic!("asking begins with the question"),
    };
    assert_eq!(ping.challenge, "c");
    assert_eq!(
        Ping { challenge: "c".to_string() }.resume(Reply::Signature(answer(3, "c"))),
        Step::Done(Ok(public(3)))
    );
    assert_eq!(ping.resume(Reply::Failed), Step::Done(Err(PingError::Unreachable)));
    assert_eq!(
        Ping { challenge: "c".to_string() }.resume(Reply::Done),
        Step::Done(Err(PingError::Unreachable))
    );
}

#[test]
fn store_asks_with_the_challenge_of_the_instant() {
    let store = Store::new([11; 32]);
    match store.ping_instance(&at("peer.example"), 0, 0) {
        Step::Next(ping, Command::AskSignature { domain: asked, challenge }) => {
            assert_eq!(asked, at("peer.example"));
            assert_eq!(challenge, "DFTOOLS VERIFY 1970-01-01 00:00:00.000");
            assert_eq!(ping.challenge, challenge);
        }
        other => panic!("no question: {:?}", other),
    }
    assert_eq!(
        store.ping_instance(&at("peer.example"), i64::MAX, 0),
        Step::Done(Err(PingError::Clock))
    );
}

fn request(claimed: u8, domain: &str) -> Step<TokenRequest, Result<SendInstance, FetchTokenResponse>> {
    api().get_server_token(encoded(&public(claimed).bytes), domain.to_string(), 1747450744123, 0)
}

#[test]
fn proved_key_gets_the_claim_through() {
    let (state, challenge) = match request(5, "peer.example") {
        Step::Next(state, Command::AskSignature { domain: asked, challenge }) => {
            assert_eq!(asked, at("peer.example"));
            (state, challenge)
        }
        other => panic!("no question: {:?}", other),
    };
    assert_eq!(challenge, "DFTOOLS VERIFY 2025-05-17 02:59:04.123");
    assert_eq!(state.claimed, public(5));
    let reply = Reply::Signature(answer(5, &challenge));
    assert_eq!(
        state.resume(reply),
        Step::Done(Ok(SendInstance {
            key: encoded(&public(5).bytes),
            domain: "peer.example".to_string()
        }))
    );
}

#[test]
fn another_proved_key_is_told_and_gets_no_token() {
    let (state, challenge) = match request(5, "peer.example") {
        Step::Next(state, Command::AskSignature { challenge, .. }) => (state, challenge),
        other => panic!("no question: {:?}", other),
    };
    let outcome = state.resume(Reply::Signature(answer(6, &challenge)));
    assert_eq!(outcome, Step::Done(Err(FetchTokenResponse::InconsistentKeys(public(6)))));
    match outcome {
        Step::Done(Err(refusal)) => assert_eq!(refusal.status(), 403),
        _ => panic!("a refusal"),
    }
}

#[test]
fn silent_or_lying_peer_gets_no_token() {
    for reply in [
        Reply::Failed,
        Reply::Done,
        Reply::Signature(answer(5, "another challenge")),
        Reply::Signature(VerificationResponse {
            server_key: "???".to_string(),
            signature: "???".to_string(),
        }),
    ] {
        let state = match request(5, "peer.example") {
            Step::Next(state, _) => state,
            other => panic!("no question: {:?}", other),
        };
        assert_eq!(state.resume(reply), Step::Done(Err(FetchTokenResponse::CannotPingInstance)));
    }
}

#[test]
fn claim_is_judged_before_any_peer_is_asked() {
    assert_eq!(
        request(11, "peer.example"),
        Step::Done(Err(FetchTokenResponse::InternalDomainUsed))
    );
    assert_eq!(
        request(5, "Peer Example"),
        Step::Done(Err(FetchTokenResponse::InstanceParseError(InstanceError::Domain)))
    );
    assert_eq!(
        api().get_server_token("???".to_string(), "peer.example".to_string(), 0, 0),
        Step::Done(Err(FetchTokenResponse::InstanceParseError(InstanceError::Key(
            KeyFormatError::Encoding
        ))))
    );
    assert_eq!(
        api().get_server_token(encoded(&public(5).bytes), "peer.example".to_string(), i64::MAX, 0),
        Step::Done(Err(FetchTokenResponse::CannotPingInstance))
    );
    assert_eq!(
        api().get_server_token("???".to_string(), "peer.example".to_string(), i64::MAX, 0),
        Step::Done(Err(FetchTokenResponse::InstanceParseError(InstanceError::Key(
            KeyFormatError::Encoding
        ))))
    );
    assert_eq!(
        TokenRequest::start(
            public(11),
            &at("here.example"),
            SendInstance { key: encoded(&public(5).bytes), domain: "peer.example".to_string() },
            None
        ),
        Step::Done(Err(FetchTokenResponse::CannotPingInstance))
    );
}

#[test]
fn claim_of_the_own_domain_is_refused_at_once() {
    assert_eq!(
        request(5, "here.example"),
        Step::Done(Err(FetchTokenResponse::InternalDomainUsed))
    );
    assert_eq!(
        request(5, "here.example."),
        Step::Done(Err(FetchTokenResponse::InternalDomainUsed))
    );
    assert_eq!(
        request(11, "here.example"),
        Step::Done(Err(FetchTokenResponse::InternalDomainUsed))
    );
    assert!(matches!(request(5, "there.example"), Step::Next(_, _)));
    assert!(matches!(request(5, "sub.here.example"), Step::Next(_, _)));
}

#[test]
fn refusals_have_their_status() {
    assert_eq!(FetchTokenResponse::InternalDomainUsed.status(), 400);
    assert_eq!(FetchTokenResponse::InstanceParseError(InstanceError::Domain).status(), 400);
    assert_eq!(FetchTokenResponse::CannotPingInstance.status(), 500);
    assert_eq!(FetchTokenResponse::InconsistentKeys(public(1)).status(), 403);
    assert_eq!(FetchTokenResponse::Token("t".to_string()).status(), 200);
}

#[test]
fn instance_proves_its_own_key() {
    let api = api();
    let response = api.vibecheck("DFTOOLS VERIFY 2025-05-17 03:59:04.123");
    let theirs = SigningKey::from_bytes(&[11; 32]);
    assert_eq!(response.server_key, encoded(&theirs.verifying_key().to_bytes()));
    let signature = base64::engine::general_purpose::URL_SAFE.decode(&response.signature).unwrap();
    let signature = ed25519_dalek::Signature::from_slice(&signature).unwrap();
    assert!(theirs
        .verifying_key()
        .verify(b"DFTOOLS VERIFY 2025-05-17 03:59:04.123", &signature)
        .is_ok());
    assert_eq!(
        judge_response("DFTOOLS VERIFY 2025-05-17 03:59:04.123", &response),
        Ok(api.store.public_key())
    );
    assert_eq!(api.store.sign(b"abc").to_vec(), theirs.sign(b"abc").to_bytes().to_vec());
    assert_ne!(api.store.sign(b"abc").to_vec(), api.store.sign(b"abd").to_vec());
}

#[test]
fn two_instances_shake_hands() {
    let asked = api();
    let asking = InstanceApi { store: Store::new([22; 32]), domain: at("asking.example") };
    let step = asked.get_server_token(
        asking.store.public_key().encode(),
        "asking.example".to_string(),
        1747450744123,
        7200,
    );
    let (state, challenge) = match step {
        Step::Next(state, Command::AskSignature { challenge, .. }) => (state, challenge),
        other => panic!("no question: {:?}", other),
    };
    let reply = Reply::Signature(asking.vibecheck(&challenge));
    match state.resume(reply) {
        Step::Done(Ok(claim)) => assert_eq!(claim.parse().unwrap().key, asking.store.public_key()),
        other => panic!("no token: {:?}", other),
    }
}
