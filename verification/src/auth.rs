//! The three ways a caller proves who it is: a server token, the header of
//! a game server on the allow-list, and an API key.

use crate::instance::{Instance, SendInstance};
use crate::keys::PublicKey;
use crate::store::instance::PlotLookup;
use crate::store::keys::KeyLookup;
use crate::store::{Reply, Step, Store, StoreFault};
use crate::text::{
    chars_of, find, has_prefix, matches_at, parse_i32, parse_i32_spec, split_once,
};
use crate::PlotId;
use vstd::prelude::*;
use vstd::slice::slice_subrange;
use vstd::string::*;

verus! {

/// Tokens issued before this second of the Unix epoch are no longer taken.
pub const JWT_VERSION: u64 = 1747450744;

/// How many seconds a token is good for: three hours.
pub const JWT_EXPIRY: u64 = 10800;

/// The status that every refused credential is answered with.
pub const UNAUTHORIZED: u16 = 401;

/// What a server token claims: who it was issued to, when, until when, and
/// a serial that is unique to it.
#[derive(Debug, PartialEq, Eq)]
pub struct ExternalServer {
    pub sub: SendInstance,
    pub iat: u64,
    pub exp: u64,
    pub jti: u128,
}

impl Clone for ExternalServer {
    fn clone(&self) -> (r: Self)
        ensures
            r == *self,
    {
        ExternalServer { sub: self.sub.clone(), iat: self.iat, exp: self.exp, jti: self.jti }
    }
}

/// A caller that showed a good server token.
#[derive(Debug, PartialEq, Eq)]
pub struct ExternalServerAuth(pub ExternalServer);

/// Why a server token is refused.
#[derive(Clone, Copy, PartialEq, Eq, Structural, Debug)]
pub enum ServerAuthError {
    CannotVerify,
    Expired,
    VersionMismatch,
}

impl ServerAuthError {
    /// The HTTP status that the answer is sent with.
    pub fn status(&self) -> (r: u16)
        ensures
            r == UNAUTHORIZED,
    {
        UNAUTHORIZED
    }

    /// What the caller is told.
    pub fn message(&self) -> (r: &'static str)
        ensures
            r@ == match self {
                ServerAuthError::CannotVerify => "Cannot verify token"@,
                ServerAuthError::Expired => "Token expired"@,
                ServerAuthError::VersionMismatch => "Version mismatch (please regenerate token)"@,
            },
    {
        match self {
            ServerAuthError::CannotVerify => "Cannot verify token",
            ServerAuthError::Expired => "Token expired",
            ServerAuthError::VersionMismatch => "Version mismatch (please regenerate token)",
        }
    }
}

/// What is made of a token at the second `now`. `verified` is the token's
/// claims where its signature held, and `None` where it did not.
pub open spec fn server_check(verified: Option<ExternalServer>, now: u64) -> Result<
    ExternalServer,
    ServerAuthError,
> {
    match verified {
        None => Err(ServerAuthError::CannotVerify),
        Some(server) => if server.iat < JWT_VERSION {
            Err(ServerAuthError::VersionMismatch)
        } else if server.exp < now {
            Err(ServerAuthError::Expired)
        } else {
            Ok(server)
        },
    }
}

/// Judges a server token: it must have verified, be issued at or after the
/// version fence, and not have expired.
pub fn check_server(verified: Option<ExternalServer>, now: u64) -> (r: Result<
    ExternalServer,
    ServerAuthError,
>)
    ensures
        r == server_check(verified, now),
{
    match verified {
        None => Err(ServerAuthError::CannotVerify),
        Some(server) => {
            if server.iat < JWT_VERSION {
                Err(ServerAuthError::VersionMismatch)
            } else if server.exp < now {
                Err(ServerAuthError::Expired)
            } else {
                Ok(server)
            }
        },
    }
}

impl ExternalServer {
    /// The token issued to `sub` at the second `now`, with the serial `jti`.
    pub open spec fn issued(sub: SendInstance, now: u64, jti: u128) -> ExternalServer {
        ExternalServer { sub, iat: now, exp: (now + JWT_EXPIRY) as u64, jti }
    }

    /// Issues a token that is good for three hours from `now`.
    pub fn issue(sub: SendInstance, now: u64, jti: u128) -> (r: ExternalServer)
        requires
            now + JWT_EXPIRY <= u64::MAX,
        ensures
            r == ExternalServer::issued(sub, now, jti),
            r.iat == now,
            r.exp == now + JWT_EXPIRY,
    {
        ExternalServer { sub, iat: now, exp: now + JWT_EXPIRY, jti }
    }
}

/// A token issued at or after the version fence is taken from the second
/// it was issued until three hours later, and at no later second.
pub proof fn lemma_token_lifecycle(sub: SendInstance, issued_at: u64, jti: u128, now: u64)
    requires
        issued_at + JWT_EXPIRY <= u64::MAX,
    ensures
        ({
            let token = ExternalServer::issued(sub, issued_at, jti);
            let outcome = server_check(Some(token), now);
            &&& token.iat < token.exp
            &&& issued_at < JWT_VERSION ==> outcome == Err::<ExternalServer, ServerAuthError>(
                ServerAuthError::VersionMismatch,
            )
            &&& issued_at >= JWT_VERSION && now <= issued_at + JWT_EXPIRY ==> outcome == Ok::<
                ExternalServer,
                ServerAuthError,
            >(token)
            &&& issued_at >= JWT_VERSION && now > issued_at + JWT_EXPIRY ==> outcome == Err::<
                ExternalServer,
                ServerAuthError,
            >(ServerAuthError::Expired)
        }),
{
}

/// A plot as a game server claims it: nothing is known to be registered.
#[derive(Debug, PartialEq, Eq)]
pub struct UnregisteredPlot {
    pub plot_id: PlotId,
    pub owner: String,
}

/// A caller that a game server on the allow-list vouched for.
#[derive(Debug, PartialEq, Eq)]
pub struct UnregisteredAuth(pub UnregisteredPlot);

/// Why the request of a game server is refused.
#[derive(Clone, Copy, PartialEq, Eq, Structural, Debug)]
pub enum PlotAuthError {
    PlotNotRegistered,
    NotInternetSocketAddr,
    NotIpv4,
    InvalidIp,
    MalformedUserAgent,
}

impl PlotAuthError {
    /// The HTTP status that the answer is sent with.
    pub fn status(&self) -> (r: u16)
        ensures
            r == UNAUTHORIZED,
    {
        UNAUTHORIZED
    }
}

/// Where a request came from.
#[derive(Clone, Copy, PartialEq, Eq, Structural, Debug)]
pub enum PeerAddr {
    /// An IPv4 address, by its four numbers.
    V4(u8, u8, u8, u8),
    V6,
    /// No internet address at all.
    Other,
}

/// The game servers that may vouch for a plot. A debug build also takes
/// the local host.
pub open spec fn ip_allowed(a: u8, b: u8, c: u8, d: u8, debug: bool) -> bool {
    (a == 51 && b == 222 && c == 245 && d == 229) || (debug && a == 127 && b == 0 && c == 0 && d
        == 1)
}

/// The plot number and the owner's name that a header of the form
/// `Hypercube/<version> (<plot>, <owner>)` carries, whatever the version:
/// the number stands after the first opening bracket, up to the first
/// comma and blank after it, and the name from there to the first closing
/// bracket. A number below zero is no plot's number.
pub open spec fn user_agent_fields(header: Seq<char>) -> Option<(int, Seq<char>)> {
    if !has_prefix(header, "Hypercube/"@) {
        None
    } else {
        match split_once(header, seq!['(']) {
            None => None,
            Some((_, right)) => match split_once(right, seq![',', ' ']) {
                None => None,
                Some((plot, rest)) => match split_once(rest, seq![')']) {
                    None => None,
                    Some((owner, _)) => match parse_i32_spec(plot) {
                        None => None,
                        Some(id) => if id < 0 {
                            None
                        } else {
                            Some((id, owner))
                        },
                    },
                },
            },
        }
    }
}

/// Reads the plot number and the owner's name out of a game server's header.
pub fn parse_user_agent(header: &str) -> (r: Option<UnregisteredPlot>)
    ensures
        match r {
            Some(plot) => user_agent_fields(header@) == Some((plot.plot_id as int, plot.owner@)),
            None => user_agent_fields(header@) is None,
        },
        r matches Some(plot) ==> plot.plot_id >= 0,
{
    let chars = chars_of(header);
    let prefix = chars_of("Hypercube/");
    if !matches_at(chars.as_slice(), prefix.as_slice(), 0) {
        return None;
    }
    let n = chars.len();
    let open: [char; 1] = ['('];
    let comma: [char; 2] = [',', ' '];
    let close: [char; 1] = [')'];
    assert(open@ =~= seq!['(']);
    assert(comma@ =~= seq![',', ' ']);
    assert(close@ =~= seq![')']);
    let at = match find(chars.as_slice(), open.as_slice()) {
        None => {
            return None;
        },
        Some(at) => at,
    };
    let right = slice_subrange(chars.as_slice(), at + 1, n);
    assert(right@ =~= header@.skip(at + 1));
    let sep = match find(right, comma.as_slice()) {
        None => {
            return None;
        },
        Some(sep) => sep,
    };
    let plot = slice_subrange(right, 0, sep);
    let rest = slice_subrange(right, sep + 2, right.len());
    assert(plot@ =~= right@.take(sep as int));
    assert(rest@ =~= right@.skip(sep + 2));
    let end = match find(rest, close.as_slice()) {
        None => {
            return None;
        },
        Some(end) => end,
    };
    let plot_id = match parse_i32(plot) {
        None => {
            return None;
        },
        Some(id) => id,
    };
    if plot_id < 0 {
        return None;
    }
    let from = at + 1 + sep + 2;
    let owner = String::from_str(header.substring_char(from, from + end));
    assert(owner@ =~= rest@.take(end as int));
    Some(UnregisteredPlot { plot_id, owner })
}

/// What is made of a game server's request.
pub open spec fn unregistered_check(peer: PeerAddr, user_agent: Seq<char>, debug: bool) -> Result<
    (int, Seq<char>),
    PlotAuthError,
> {
    match peer {
        PeerAddr::Other => Err(PlotAuthError::NotInternetSocketAddr),
        PeerAddr::V6 => Err(PlotAuthError::NotIpv4),
        PeerAddr::V4(a, b, c, d) => if !ip_allowed(a, b, c, d, debug) {
            Err(PlotAuthError::InvalidIp)
        } else {
            match user_agent_fields(user_agent) {
                None => Err(PlotAuthError::MalformedUserAgent),
                Some(fields) => Ok(fields),
            }
        },
    }
}

/// Judges a game server's request: it must come from an IPv4 address on the
/// allow-list and carry a well-formed header.
pub fn check_unreg_plot(peer: PeerAddr, user_agent: &str, debug: bool) -> (r: Result<
    UnregisteredPlot,
    PlotAuthError,
>)
    ensures
        match r {
            Ok(plot) => unregistered_check(peer, user_agent@, debug) == Ok::<
                (int, Seq<char>),
                PlotAuthError,
            >((plot.plot_id as int, plot.owner@)),
            Err(e) => unregistered_check(peer, user_agent@, debug) == Err::<
                (int, Seq<char>),
                PlotAuthError,
            >(e),
        },
{
    match peer {
        PeerAddr::Other => Err(PlotAuthError::NotInternetSocketAddr),
        PeerAddr::V6 => Err(PlotAuthError::NotIpv4),
        PeerAddr::V4(a, b, c, d) => {
            let known = (a == 51 && b == 222 && c == 245 && d == 229) || (debug && a == 127 && b
                == 0 && c == 0 && d == 1);
            if !known {
                return Err(PlotAuthError::InvalidIp);
            }
            match parse_user_agent(user_agent) {
                Some(plot) => Ok(plot),
                None => Err(PlotAuthError::MalformedUserAgent),
            }
        },
    }
}

/// A registered plot: its owner and the instance it lives on.
#[derive(Debug, PartialEq, Eq)]
pub struct Plot {
    pub plot_id: PlotId,
    pub owner: u128,
    pub instance: Instance,
}

impl Clone for Plot {
    fn clone(&self) -> (r: Self)
        ensures
            r == *self,
    {
        Plot { plot_id: self.plot_id, owner: self.owner, instance: self.instance.clone() }
    }
}

/// A caller that showed a good API key.
#[derive(Debug, PartialEq, Eq)]
pub struct KeyAuth(pub Plot);

/// A caller that a game server vouched for, for a registered plot.
#[derive(Debug, PartialEq, Eq)]
pub struct PlotAuth(pub Plot);

/// A caller of an end-user endpoint, by either credential.
#[derive(Debug, PartialEq, Eq)]
pub enum Auth {
    KeyAuth(KeyAuth),
    PlotAuth(PlotAuth),
}

impl Auth {
    /// The number of the plot that the caller speaks for.
    pub open spec fn plot_id(self) -> PlotId {
        match self {
            Auth::KeyAuth(a) => a.0.plot_id,
            Auth::PlotAuth(a) => a.0.plot_id,
        }
    }

    /// The plot that the caller speaks for.
    pub fn plot(self) -> (r: Plot)
        ensures
            r == match self {
                Auth::KeyAuth(a) => a.0,
                Auth::PlotAuth(a) => a.0,
            },
    {
        match self {
            Auth::KeyAuth(a) => a.0,
            Auth::PlotAuth(a) => a.0,
        }
    }
}

/// Why an API key is refused.
#[derive(Clone, Copy, PartialEq, Eq, Structural, Debug)]
pub enum KeyAuthError {
    InvalidApiKey,
}

impl KeyAuthError {
    /// The HTTP status that the answer is sent with.
    pub fn status(&self) -> (r: u16)
        ensures
            r == UNAUTHORIZED,
    {
        UNAUTHORIZED
    }
}

/// Judges an API key by what the key lookup found for it.
pub fn key_checker(found: Option<Plot>) -> (r: Result<Plot, KeyAuthError>)
    ensures
        r == match found {
            Some(plot) => Ok::<Plot, KeyAuthError>(plot),
            None => Err::<Plot, KeyAuthError>(KeyAuthError::InvalidApiKey),
        },
{
    match found {
        Some(plot) => Ok(plot),
        None => Err(KeyAuthError::InvalidApiKey),
    }
}

/// Judges a vouched-for plot by what the plot lookup found for it: the plot
/// must be registered, and then the stored owner and instance are taken.
pub fn plot_checker(unreg: &UnregisteredPlot, found: Option<Plot>) -> (r: Result<
    Plot,
    PlotAuthError,
>)
    ensures
        r == match found {
            Some(plot) => Ok::<Plot, PlotAuthError>(
                Plot { plot_id: unreg.plot_id, owner: plot.owner, instance: plot.instance },
            ),
            None => Err::<Plot, PlotAuthError>(PlotAuthError::PlotNotRegistered),
        },
{
    match found {
        Some(plot) => Ok(
            Plot { plot_id: unreg.plot_id, owner: plot.owner, instance: plot.instance },
        ),
        None => Err(PlotAuthError::PlotNotRegistered),
    }
}

/// Proving a caller by an API key: the key is looked up, and the caller is
/// the plot that the key belongs to. A request without a key is refused
/// like one with a key that is none.
#[derive(Debug, PartialEq, Eq)]
pub struct KeyCheck {
    pub lookup: KeyLookup,
}

impl KeyCheck {
    /// The proof while, and after, the key is looked up.
    pub open spec fn looking(step: Step<KeyLookup, Result<Option<Plot>, StoreFault>>) -> Step<
        KeyCheck,
        Result<Result<Plot, KeyAuthError>, StoreFault>,
    > {
        match step {
            Step::Next(lookup, command) => Step::Next(KeyCheck { lookup }, command),
            Step::Done(Ok(Some(plot))) => Step::Done(Ok(Ok(plot))),
            Step::Done(Ok(None)) => Step::Done(Ok(Err(KeyAuthError::InvalidApiKey))),
            Step::Done(Err(e)) => Step::Done(Err(e)),
            Step::Settled(Ok(Some(plot)), command) => Step::Settled(Ok(Ok(plot)), command),
            Step::Settled(Ok(None), command) => Step::Settled(
                Ok(Err(KeyAuthError::InvalidApiKey)),
                command,
            ),
            Step::Settled(Err(e), command) => Step::Settled(Err(e), command),
        }
    }

    /// How the operation begins.
    pub open spec fn begin(current: PublicKey, key: Option<String>) -> Step<
        KeyCheck,
        Result<Result<Plot, KeyAuthError>, StoreFault>,
    > {
        match key {
            None => Step::Done(Ok(Err(KeyAuthError::InvalidApiKey))),
            Some(key) => Self::looking(KeyLookup::begin(key, current)),
        }
    }

    /// How the operation goes on after a reply.
    pub open spec fn step(self, reply: Reply) -> Step<
        KeyCheck,
        Result<Result<Plot, KeyAuthError>, StoreFault>,
    > {
        Self::looking(self.lookup.step(reply))
    }

    fn look(step: Step<KeyLookup, Result<Option<Plot>, StoreFault>>) -> (r: Step<
        KeyCheck,
        Result<Result<Plot, KeyAuthError>, StoreFault>,
    >)
        ensures
            r == Self::looking(step),
    {
        match step {
            Step::Next(lookup, command) => Step::Next(KeyCheck { lookup }, command),
            Step::Done(Ok(found)) => Step::Done(Ok(key_checker(found))),
            Step::Done(Err(e)) => Step::Done(Err(e)),
            Step::Settled(Ok(found), command) => Step::Settled(Ok(key_checker(found)), command),
            Step::Settled(Err(e), command) => Step::Settled(Err(e), command),
        }
    }

    /// Begins proving a caller by the API key of its request, if it has one.
    pub fn start(store: &Store, key: Option<String>) -> (r: Step<
        KeyCheck,
        Result<Result<Plot, KeyAuthError>, StoreFault>,
    >)
        ensures
            r == KeyCheck::begin(store.public_key, key),
    {
        match key {
            None => Step::Done(Ok(Err(KeyAuthError::InvalidApiKey))),
            Some(key) => Self::look(store.verify_key(key)),
        }
    }

    /// Takes the reply to the last command and says how the operation goes on.
    pub fn resume(self, reply: Reply) -> (r: Step<
        KeyCheck,
        Result<Result<Plot, KeyAuthError>, StoreFault>,
    >)
        ensures
            r == self.step(reply),
    {
        Self::look(self.lookup.resume(reply))
    }
}

/// Proving a caller by the header of a game server, for a plot that is
/// registered: the request is judged as for an unregistered plot, and then
/// the plot is read.
#[derive(Clone, Copy, Debug, PartialEq, Eq)]
pub struct PlotCheck {
    pub plot_id: PlotId,
    pub lookup: PlotLookup,
}

impl PlotCheck {
    /// What is made of the plot that was read: the stored owner and instance under the number that was vouched for.
    pub open spec fn checked(plot_id: PlotId, found: Result<Option<Plot>, StoreFault>) -> Result<
        Result<Plot, PlotAuthError>,
        StoreFault,
    > {
        match found {
            Ok(Some(plot)) => Ok(
                Ok(Plot { plot_id, owner: plot.owner, instance: plot.instance }),
            ),
            Ok(None) => Ok(Err(PlotAuthError::PlotNotRegistered)),
            Err(e) => Err(e),
        }
    }

    /// The proof while, and after, the plot is read.
    pub open spec fn reading(
        plot_id: PlotId,
        step: Step<PlotLookup, Result<Option<Plot>, StoreFault>>,
    ) -> Step<PlotCheck, Result<Result<Plot, PlotAuthError>, StoreFault>> {
        match step {
            Step::Next(lookup, command) => Step::Next(PlotCheck { plot_id, lookup }, command),
            Step::Done(found) => Step::Done(Self::checked(plot_id, found)),
            Step::Settled(found, command) => Step::Settled(Self::checked(plot_id, found), command),
        }
    }

    /// How the operation begins.
    pub open spec fn begin(current: PublicKey, peer: PeerAddr, user_agent: Seq<char>, debug: bool)
        -> Step<PlotCheck, Result<Result<Plot, PlotAuthError>, StoreFault>> {
        match unregistered_check(peer, user_agent, debug) {
            Err(e) => Step::Done(Ok(Err(e))),
            Ok((plot_id, _)) => Self::reading(
                plot_id as PlotId,
                PlotLookup::begin(plot_id as PlotId, current),
            ),
        }
    }

    /// How the operation goes on after a reply.
    pub open spec fn step(self, reply: Reply) -> Step<
        PlotCheck,
        Result<Result<Plot, PlotAuthError>, StoreFault>,
    > {
        Self::reading(self.plot_id, self.lookup.step(reply))
    }

    fn check(plot_id: PlotId, found: Result<Option<Plot>, StoreFault>) -> (r: Result<
        Result<Plot, PlotAuthError>,
        StoreFault,
    >)
        ensures
            r == Self::checked(plot_id, found),
    {
        match found {
            Ok(Some(plot)) => Ok(
                Ok(Plot { plot_id, owner: plot.owner, instance: plot.instance }),
            ),
            Ok(None) => Ok(Err(PlotAuthError::PlotNotRegistered)),
            Err(e) => Err(e),
        }
    }

    fn read(plot_id: PlotId, step: Step<PlotLookup, Result<Option<Plot>, StoreFault>>) -> (r: Step<
        PlotCheck,
        Result<Result<Plot, PlotAuthError>, StoreFault>,
    >)
        ensures
            r == Self::reading(plot_id, step),
    {
        match step {
            Step::Next(lookup, command) => Step::Next(PlotCheck { plot_id, lookup }, command),
            Step::Done(found) => Step::Done(Self::check(plot_id, found)),
            Step::Settled(found, command) => Step::Settled(Self::check(plot_id, found), command),
        }
    }

    /// Begins proving a caller by the header of a game server, on the
    /// instance with the key `current`.
    pub fn start(current: PublicKey, peer: PeerAddr, user_agent: &str, debug: bool) -> (r: Step<
        PlotCheck,
        Result<Result<Plot, PlotAuthError>, StoreFault>,
    >)
        ensures
            r == PlotCheck::begin(current, peer, user_agent@, debug),
    {
        match check_unreg_plot(peer, user_agent, debug) {
            Err(e) => Step::Done(Ok(Err(e))),
            Ok(unreg) => Self::read(unreg.plot_id, PlotLookup::start(unreg.plot_id, current)),
        }
    }

    /// Takes the reply to the last command and says how the operation goes on.
    pub fn resume(self, reply: Reply) -> (r: Step<
        PlotCheck,
        Result<Result<Plot, PlotAuthError>, StoreFault>,
    >)
        ensures
            r == self.step(reply),
    {
        Self::read(self.plot_id, self.lookup.resume(reply))
    }
}

/// Proving a caller of an end-user endpoint: by its API key where that
/// proves a plot, and else by the header of a game server. Where neither
/// does, the refusal is that of the header.
#[derive(Debug, PartialEq, Eq)]
pub enum Authentication {
    ByKey { check: KeyCheck, current: PublicKey, peer: PeerAddr, user_agent: String, debug: bool },
    ByPlot { header: PlotCheck },
}

impl Authentication {
    /// The proof by the header of a game server.
    pub open spec fn by_plot(
        step: Step<PlotCheck, Result<Result<Plot, PlotAuthError>, StoreFault>>,
    ) -> Step<Authentication, Result<Result<Auth, PlotAuthError>, StoreFault>> {
        match step {
            Step::Next(header, command) => Step::Next(Authentication::ByPlot { header }, command),
            Step::Done(Ok(Ok(plot))) => Step::Done(Ok(Ok(Auth::PlotAuth(PlotAuth(plot))))),
            Step::Done(Ok(Err(e))) => Step::Done(Ok(Err(e))),
            Step::Done(Err(e)) => Step::Done(Err(e)),
            Step::Settled(Ok(Ok(plot)), command) => Step::Settled(
                Ok(Ok(Auth::PlotAuth(PlotAuth(plot)))),
                command,
            ),
            Step::Settled(Ok(Err(e)), command) => Step::Settled(Ok(Err(e)), command),
            Step::Settled(Err(e), command) => Step::Settled(Err(e), command),
        }
    }

    /// The proof by the API key; where the key proves nothing, the header is tried.
    pub open spec fn by_key(
        step: Step<KeyCheck, Result<Result<Plot, KeyAuthError>, StoreFault>>,
        current: PublicKey,
        peer: PeerAddr,
        user_agent: String,
        debug: bool,
    ) -> Step<Authentication, Result<Result<Auth, PlotAuthError>, StoreFault>> {
        match step {
            Step::Next(check, command) => Step::Next(
                Authentication::ByKey { check, current, peer, user_agent, debug },
                command,
            ),
            Step::Done(Ok(Ok(plot))) => Step::Done(Ok(Ok(Auth::KeyAuth(KeyAuth(plot))))),
            Step::Settled(Ok(Ok(plot)), command) => Step::Settled(
                Ok(Ok(Auth::KeyAuth(KeyAuth(plot)))),
                command,
            ),
            Step::Done(Ok(Err(_))) => Self::by_plot(
                PlotCheck::begin(current, peer, user_agent@, debug),
            ),
            Step::Settled(Ok(Err(_)), _) => Self::by_plot(
                PlotCheck::begin(current, peer, user_agent@, debug),
            ),
            Step::Done(Err(e)) => Step::Done(Err(e)),
            Step::Settled(Err(e), _) => Step::Done(Err(e)),
        }
    }

    /// How the operation begins.
    pub open spec fn begin(
        current: PublicKey,
        key: Option<String>,
        peer: PeerAddr,
        user_agent: String,
        debug: bool,
    ) -> Step<Authentication, Result<Result<Auth, PlotAuthError>, StoreFault>> {
        Self::by_key(KeyCheck::begin(current, key), current, peer, user_agent, debug)
    }

    /// How the operation goes on after a reply.
    pub open spec fn step(self, reply: Reply) -> Step<
        Authentication,
        Result<Result<Auth, PlotAuthError>, StoreFault>,
    > {
        match self {
            Authentication::ByKey { check, current, peer, user_agent, debug } => Self::by_key(
                check.step(reply),
                current,
                peer,
                user_agent,
                debug,
            ),
            Authentication::ByPlot { header } => Self::by_plot(header.step(reply)),
        }
    }

    fn plot(step: Step<PlotCheck, Result<Result<Plot, PlotAuthError>, StoreFault>>) -> (r: Step<
        Authentication,
        Result<Result<Auth, PlotAuthError>, StoreFault>,
    >)
        ensures
            r == Self::by_plot(step),
    {
        match step {
            Step::Next(header, command) => Step::Next(Authentication::ByPlot { header }, command),
            Step::Done(Ok(Ok(plot))) => Step::Done(Ok(Ok(Auth::PlotAuth(PlotAuth(plot))))),
            Step::Done(Ok(Err(e))) => Step::Done(Ok(Err(e))),
            Step::Done(Err(e)) => Step::Done(Err(e)),
            Step::Settled(Ok(Ok(plot)), command) => Step::Settled(
                Ok(Ok(Auth::PlotAuth(PlotAuth(plot)))),
                command,
            ),
            Step::Settled(Ok(Err(e)), command) => Step::Settled(Ok(Err(e)), command),
            Step::Settled(Err(e), command) => Step::Settled(Err(e), command),
        }
    }

    fn key(
        step: Step<KeyCheck, Result<Result<Plot, KeyAuthError>, StoreFault>>,
        current: PublicKey,
        peer: PeerAddr,
        user_agent: String,
        debug: bool,
    ) -> (r: Step<Authentication, Result<Result<Auth, PlotAuthError>, StoreFault>>)
        ensures
            r == Self::by_key(step, current, peer, user_agent, debug),
    {
        match step {
            Step::Next(check, command) => Step::Next(
                Authentication::ByKey { check, current, peer, user_agent, debug },
                command,
            ),
            Step::Done(Ok(Ok(plot))) => Step::Done(Ok(Ok(Auth::KeyAuth(KeyAuth(plot))))),
            Step::Settled(Ok(Ok(plot)), command) => Step::Settled(
                Ok(Ok(Auth::KeyAuth(KeyAuth(plot)))),
                command,
            ),
            Step::Done(Ok(Err(_))) => Self::plot(
                PlotCheck::start(current, peer, user_agent.as_str(), debug),
            ),
            Step::Settled(Ok(Err(_)), _) => Self::plot(
                PlotCheck::start(current, peer, user_agent.as_str(), debug),
            ),
            Step::Done(Err(e)) => Step::Done(Err(e)),
            Step::Settled(Err(e), _) => Step::Done(Err(e)),
        }
    }

    /// Begins proving the caller of an end-user endpoint.
    pub fn start(store: &Store, key: Option<String>, peer: PeerAddr, user_agent: String, debug: bool)
        -> (r: Step<Authentication, Result<Result<Auth, PlotAuthError>, StoreFault>>)
        ensures
            r == Authentication::begin(store.public_key, key, peer, user_agent, debug),
    {
        Self::key(KeyCheck::start(store, key), store.public_key, peer, user_agent, debug)
    }

    /// Takes the reply to the last command and says how the operation goes on.
    pub fn resume(self, reply: Reply) -> (r: Step<
        Authentication,
        Result<Result<Auth, PlotAuthError>, StoreFault>,
    >)
        ensures
            r == self.step(reply),
    {
        match self {
            Authentication::ByKey { check, current, peer, user_agent, debug } => Self::key(
                check.resume(reply),
                current,
                peer,
                user_agent,
                debug,
            ),
            Authentication::ByPlot { header } => Self::plot(header.resume(reply)),
        }
    }
}

} // verus!
