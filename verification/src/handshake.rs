//! The handshake between instances: one instance claims a key and a
//! domain, the other has the claimed domain sign a fresh challenge, and
//! issues a token only where the signature proves the claimed key.

use crate::codec::{base64url_bytes, base64url_decode, clock_format, clock_text};
use crate::instance::{ExternalDomain, InstanceDomain, InstanceError, SendInstance};
use crate::keys::{ed25519_strict, to_array64, verify_strict, KeyFormatError, PublicKey};
use crate::store::{Command, Reply, Step, Store, VerificationResponse};
use vstd::prelude::*;
use vstd::string::*;

verus! {

/// How many seconds a peer is given to answer a challenge.
pub const PEER_TIMEOUT: u64 = 10;

/// The marker that every challenge begins with.
pub open spec fn challenge_marker() -> Seq<char> {
    "DFTOOLS VERIFY "@
}

/// The pattern after which a challenge shows its instant: the date, and the
/// time of day to the millisecond.
pub open spec fn challenge_format() -> Seq<char> {
    "%Y-%m-%d %H:%M:%S%.3f"@
}

/// The challenge of the instant `millis` milliseconds after the Unix epoch,
/// seen `offset` seconds east of UTC: the marker, then the instant.
pub open spec fn challenge_text(millis: i64, offset: i32) -> Option<Seq<char>> {
    match clock_text(millis, offset, challenge_format()) {
        Some(instant) => Some(challenge_marker() + instant),
        None => None,
    }
}

/// Writes the challenge of an instant; `None` where the instant or the
/// offset is out of range.
pub fn challenge(millis: i64, offset: i32) -> (r: Option<String>)
    ensures
        match r {
            Some(text) => challenge_text(millis, offset) == Some(text@),
            None => challenge_text(millis, offset) is None,
        },
        r matches Some(text) ==> crate::text::has_prefix(text@, challenge_marker()),
{
    match clock_format(millis, offset, "%Y-%m-%d %H:%M:%S%.3f") {
        None => None,
        Some(instant) => {
            let mut out = String::from_str("DFTOOLS VERIFY ");
            out.append(instant.as_str());
            assert(out@.subrange(0, challenge_marker().len() as int) =~= challenge_marker());
            Some(out)
        },
    }
}

/// Where an instance signs challenges. A debug build asks without TLS.
pub open spec fn sign_address(domain: Seq<char>, debug: bool) -> Seq<char> {
    (if debug {
        "http://"@
    } else {
        "https://"@
    }) + domain + "/instance/v0/sign"@
}

/// The address at which the instance at `domain` signs challenges.
pub fn sign_url(domain: &ExternalDomain, debug: bool) -> (r: String)
    ensures
        r@ == sign_address(domain.name@, debug),
{
    let mut out = if debug {
        String::from_str("http://")
    } else {
        String::from_str("https://")
    };
    out.append(domain.name.as_str());
    out.append("/instance/v0/sign");
    out
}

/// Why a peer did not prove a key.
#[derive(Clone, Copy, PartialEq, Eq, Structural, Debug)]
pub enum PingError {
    /// No challenge could be written for the instant.
    Clock,
    /// The peer did not answer, or not in the form of an answer.
    Unreachable,
    /// The key in the answer is none.
    ServerKey(KeyFormatError),
    /// The signature in the answer is not base64.
    SignatureEncoding,
    /// The signature in the answer has more or fewer than 64 bytes.
    SignatureLength,
    /// The signature does not hold for the challenge under the key.
    InvalidSignature,
}

/// The key that an answer proves for a challenge.
pub open spec fn ping_verdict(challenge: Seq<char>, response: VerificationResponse) -> Result<
    PublicKey,
    PingError,
> {
    match PublicKey::decoding(response.server_key@) {
        Err(e) => Err(PingError::ServerKey(e)),
        Ok(key) => match base64url_bytes(response.signature@) {
            None => Err(PingError::SignatureEncoding),
            Some(signature) => if signature.len() != 64 {
                Err(PingError::SignatureLength)
            } else if ed25519_strict(key@, vstd::utf8::encode_utf8(challenge), signature) {
                Ok(key)
            } else {
                Err(PingError::InvalidSignature)
            },
        },
    }
}

/// Judges the answer of a peer: the signature must hold, under the key in
/// the answer, for exactly the challenge that was sent.
pub fn judge_response(challenge: &str, response: &VerificationResponse) -> (r: Result<
    PublicKey,
    PingError,
>)
    ensures
        r == ping_verdict(challenge@, *response),
        r is Ok ==> r->Ok_0.wf(),
{
    let key = match PublicKey::decode(response.server_key.as_str()) {
        Ok(key) => key,
        Err(e) => {
            return Err(PingError::ServerKey(e));
        },
    };
    let bytes = match base64url_decode(response.signature.as_str()) {
        Some(bytes) => bytes,
        None => {
            return Err(PingError::SignatureEncoding);
        },
    };
    let signature = match to_array64(bytes.as_slice()) {
        Some(signature) => signature,
        None => {
            return Err(PingError::SignatureLength);
        },
    };
    if verify_strict(&key.bytes, challenge.as_bytes(), &signature) {
        Ok(key)
    } else {
        Err(PingError::InvalidSignature)
    }
}

/// Having a peer prove its key: the challenge is sent to the peer's
/// domain, and the answer judged.
#[derive(Debug, PartialEq, Eq)]
pub struct Ping {
    pub challenge: String,
}

impl Ping {
    /// How the operation begins.
    pub open spec fn begin(domain: ExternalDomain, challenge: String) -> Step<
        Ping,
        Result<PublicKey, PingError>,
    > {
        Step::Next(Ping { challenge }, Command::AskSignature { domain, challenge })
    }

    /// How the operation goes on after a reply.
    pub open spec fn step(self, reply: Reply) -> Step<Ping, Result<PublicKey, PingError>> {
        match reply {
            Reply::Signature(response) => Step::Done(ping_verdict(self.challenge@, response)),
            _ => Step::Done(Err(PingError::Unreachable)),
        }
    }

    /// Begins the operation.
    pub fn start(domain: ExternalDomain, challenge: String) -> (r: Step<
        Ping,
        Result<PublicKey, PingError>,
    >)
        ensures
            r == Ping::begin(domain, challenge),
    {
        let sent = challenge.clone();
        Step::Next(Ping { challenge }, Command::AskSignature { domain, challenge: sent })
    }

    /// Takes the reply to the last command and says how the operation goes on.
    pub fn resume(self, reply: Reply) -> (r: Step<Ping, Result<PublicKey, PingError>>)
        ensures
            r == self.step(reply),
    {
        match reply {
            Reply::Signature(response) => Step::Done(
                judge_response(self.challenge.as_str(), &response),
            ),
            _ => Step::Done(Err(PingError::Unreachable)),
        }
    }
}

/// How a request for a server token ends.
#[derive(Debug, PartialEq, Eq)]
pub enum FetchTokenResponse {
    /// The claim names this instance itself.
    InternalDomainUsed,
    /// The claim is no instance.
    InstanceParseError(InstanceError),
    /// The claimed domain proved no key.
    CannotPingInstance,
    /// The claimed domain proved another key than the claimed one: this one.
    InconsistentKeys(PublicKey),
    /// The signed token.
    Token(String),
}

impl FetchTokenResponse {
    /// The HTTP status that the answer is sent with.
    pub fn status(&self) -> (r: u16)
        ensures
            r == match self {
                FetchTokenResponse::InternalDomainUsed => 400u16,
                FetchTokenResponse::InstanceParseError(_) => 400u16,
                FetchTokenResponse::CannotPingInstance => 500u16,
                FetchTokenResponse::InconsistentKeys(_) => 403u16,
                FetchTokenResponse::Token(_) => 200u16,
            },
    {
        match self {
            FetchTokenResponse::InternalDomainUsed => 400,
            FetchTokenResponse::InstanceParseError(_) => 400,
            FetchTokenResponse::CannotPingInstance => 500,
            FetchTokenResponse::InconsistentKeys(_) => 403,
            FetchTokenResponse::Token(_) => 200,
        }
    }
}

/// A request for a server token. It ends either with the claim that the
/// token is to be issued to, or with the refusal.
#[derive(Debug, PartialEq, Eq)]
pub struct TokenRequest {
    pub claim: SendInstance,
    pub claimed: PublicKey,
    pub ping: Ping,
}

impl TokenRequest {
    /// How the request begins, on the instance with the key `own` at the
    /// domain `here`: a claim that is no instance, or that names this
    /// instance itself, by its domain or by its key, is refused before any
    /// peer is asked; so is every claim where no challenge could be written.
    pub open spec fn begin(
        own: PublicKey,
        here: ExternalDomain,
        claim: SendInstance,
        challenge: Option<String>,
    ) -> Step<TokenRequest, Result<SendInstance, FetchTokenResponse>> {
        match claim.parsing() {
            Err(e) => Step::Done(Err(FetchTokenResponse::InstanceParseError(e))),
            Ok(instance) => match instance.domain {
                InstanceDomain::Current => Step::Done(Err(FetchTokenResponse::InternalDomainUsed)),
                InstanceDomain::External(domain) => if here@ == domain@ || own@ == instance.key@ {
                    Step::Done(Err(FetchTokenResponse::InternalDomainUsed))
                } else {
                    match challenge {
                        None => Step::Done(Err(FetchTokenResponse::CannotPingInstance)),
                        Some(challenge) => Step::Next(
                            TokenRequest { claim, claimed: instance.key, ping: Ping { challenge } },
                            Command::AskSignature { domain, challenge },
                        ),
                    }
                },
            },
        }
    }

    /// How the request ends after the peer's answer.
    pub open spec fn step(self, reply: Reply) -> Step<
        TokenRequest,
        Result<SendInstance, FetchTokenResponse>,
    > {
        match self.ping.step(reply) {
            Step::Done(Ok(proved)) => if proved@ == self.claimed@ {
                Step::Done(Ok(self.claim))
            } else {
                Step::Done(Err(FetchTokenResponse::InconsistentKeys(proved)))
            },
            _ => Step::Done(Err(FetchTokenResponse::CannotPingInstance)),
        }
    }

    /// Begins a request with the challenge that was written for it, if one
    /// could be written.
    pub fn start(
        own: PublicKey,
        here: &ExternalDomain,
        claim: SendInstance,
        challenge: Option<String>,
    ) -> (r: Step<TokenRequest, Result<SendInstance, FetchTokenResponse>>)
        ensures
            r == TokenRequest::begin(own, *here, claim, challenge),
    {
        let instance = match claim.parse() {
            Ok(instance) => instance,
            Err(e) => {
                return Step::Done(Err(FetchTokenResponse::InstanceParseError(e)));
            },
        };
        let claimed = instance.key;
        match instance.domain {
            InstanceDomain::Current => Step::Done(Err(FetchTokenResponse::InternalDomainUsed)),
            InstanceDomain::External(domain) => {
                if here.same(&domain) || own.same(&claimed) {
                    return Step::Done(Err(FetchTokenResponse::InternalDomainUsed));
                }
                match challenge {
                    None => Step::Done(Err(FetchTokenResponse::CannotPingInstance)),
                    Some(challenge) => {
                        let sent = challenge.clone();
                        Step::Next(
                            TokenRequest { claim, claimed, ping: Ping { challenge } },
                            Command::AskSignature { domain, challenge: sent },
                        )
                    },
                }
            },
        }
    }

    /// Takes the reply to the last command and says how the operation goes on.
    pub fn resume(self, reply: Reply) -> (r: Step<
        TokenRequest,
        Result<SendInstance, FetchTokenResponse>,
    >)
        ensures
            r == self.step(reply),
    {
        match self.ping.resume(reply) {
            Step::Done(Ok(proved)) => {
                if proved.same(&self.claimed) {
                    Step::Done(Ok(self.claim))
                } else {
                    Step::Done(Err(FetchTokenResponse::InconsistentKeys(proved)))
                }
            },
            _ => Step::Done(Err(FetchTokenResponse::CannotPingInstance)),
        }
    }
}

/// A claim that names this instance itself, by its domain or by its key,
/// is refused at once: no peer is asked, and there is no claim to issue a
/// token to.
pub proof fn lemma_own_claim_is_refused(
    own: PublicKey,
    here: ExternalDomain,
    claim: SendInstance,
    challenge: Option<String>,
)
    requires
        claim.parsing() matches Ok(instance) && (instance.key@ == own@ || (
        instance.domain matches InstanceDomain::External(domain) && domain@ == here@)),
    ensures
        TokenRequest::begin(own, here, claim, challenge) == Step::<
            TokenRequest,
            Result<SendInstance, FetchTokenResponse>,
        >::Done(Err(FetchTokenResponse::InternalDomainUsed)),
{
}

/// Where the peer proves another key than the one that was claimed, the
/// request ends with that other key and with no claim to issue a token to;
/// where it proves the claimed key, the request ends with the claim.
pub proof fn lemma_handshake_keys(
    request: TokenRequest,
    response: VerificationResponse,
    proved: PublicKey,
)
    requires
        ping_verdict(request.ping.challenge@, response) == Ok::<PublicKey, PingError>(proved),
    ensures
        proved@ != request.claimed@ ==> request.step(Reply::Signature(response)) == Step::<
            TokenRequest,
            Result<SendInstance, FetchTokenResponse>,
        >::Done(Err(FetchTokenResponse::InconsistentKeys(proved))),
        proved@ == request.claimed@ ==> request.step(Reply::Signature(response)) == Step::<
            TokenRequest,
            Result<SendInstance, FetchTokenResponse>,
        >::Done(Ok(request.claim)),
{
}

impl Store {
    /// Begins having the instance at `instance` prove its key, with the
    /// challenge of the given instant.
    pub fn ping_instance(&self, instance: &ExternalDomain, millis: i64, offset: i32) -> (r: Step<
        Ping,
        Result<PublicKey, PingError>,
    >)
        ensures
            match challenge_text(millis, offset) {
                None => r == Step::<Ping, Result<PublicKey, PingError>>::Done(
                    Err(PingError::Clock),
                ),
                Some(text) => exists|sent: String|
                    sent@ == text && r == Ping::begin(*instance, sent),
            },
    {
        match challenge(millis, offset) {
            None => Step::Done(Err(PingError::Clock)),
            Some(text) => Ping::start(instance.clone(), text),
        }
    }
}

} // verus!
