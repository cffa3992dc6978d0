//! The plot directory and its cache, as a conversation: the library says
//! which command is to be performed against the database, the cache or a
//! peer, the host performs it and hands back the reply, and the library
//! decides what comes next.

use crate::auth::Plot;
use crate::codec::{base64url_bytes, base64url_encode, base64url_text, sha256, sha256_digest};
use crate::instance::{ExternalDomain, Instance, InstanceDomain, InstanceError};
use crate::keys::{
    array32_of, ed25519_public, ed25519_signature, public_of, sign_with, PublicKey,
};
use crate::text::{int_text, is_digit, lemma_int_text_differs, lemma_int_text_parses, push_int};
use crate::PlotId;
use vstd::prelude::*;
use vstd::string::*;

pub mod baton;
pub mod instance;
pub mod keys;
pub mod players;

verus! {

/// The plots that a plot trusts.
#[derive(Clone, Debug, PartialEq, Eq)]
pub struct TrustVec(pub Vec<PlotId>);

impl View for TrustVec {
    type V = Seq<PlotId>;

    open spec fn view(&self) -> Seq<PlotId> {
        self.0@
    }
}

/// What the cache holds an entry under.
#[derive(Debug, PartialEq, Eq)]
pub enum CacheKey {
    /// A plot, by its number.
    Plot(PlotId),
    /// The trust list of a plot.
    Trust(PlotId),
    /// An API key, by its SHA-256 digest.
    ApiKey([u8; 32]),
    /// The account of a player, by the player's name.
    Player(String),
}

impl Clone for CacheKey {
    fn clone(&self) -> (r: Self)
        ensures
            r == *self,
    {
        match self {
            CacheKey::Plot(id) => CacheKey::Plot(*id),
            CacheKey::Trust(id) => CacheKey::Trust(*id),
            CacheKey::ApiKey(digest) => CacheKey::ApiKey(*digest),
            CacheKey::Player(name) => CacheKey::Player(name.clone()),
        }
    }
}

impl CacheKey {
    /// The name of the entry in the cache.
    pub open spec fn name(&self) -> Seq<char> {
        match self {
            CacheKey::Plot(id) => "plot:"@ + int_text(*id as int),
            CacheKey::Trust(id) => "plot:"@ + int_text(*id as int) + ":baton_trust"@,
            CacheKey::ApiKey(digest) => "key:"@ + base64url_text(digest@),
            CacheKey::Player(name) => "player:"@ + name@ + ":uuid"@,
        }
    }

    /// Whether two keys stand for the same entry.
    pub open spec fn same_entry(self, other: CacheKey) -> bool {
        match (self, other) {
            (CacheKey::Plot(a), CacheKey::Plot(b)) => a == b,
            (CacheKey::Trust(a), CacheKey::Trust(b)) => a == b,
            (CacheKey::ApiKey(a), CacheKey::ApiKey(b)) => a@ == b@,
            (CacheKey::Player(a), CacheKey::Player(b)) => a@ == b@,
            _ => false,
        }
    }

    /// Writes the name of the entry. The name of an API key's entry tells
    /// the digest of the key.
    pub fn render(&self) -> (r: String)
        ensures
            r@ == self.name(),
            self matches CacheKey::ApiKey(digest) ==> base64url_bytes(r@.skip(4)) == Some(digest@),
    {
        match self {
            CacheKey::Plot(id) => {
                let mut out = String::from_str("plot:");
                push_int(&mut out, *id);
                out
            },
            CacheKey::Trust(id) => {
                let mut out = String::from_str("plot:");
                push_int(&mut out, *id);
                out.append(":baton_trust");
                out
            },
            CacheKey::ApiKey(digest) => {
                let mut out = String::from_str("key:");
                let text = base64url_encode(digest.as_slice());
                out.append(text.as_str());
                proof {
                    reveal_strlit("key:");
                    assert(out@.skip(4) =~= text@);
                }
                out
            },
            CacheKey::Player(name) => {
                let mut out = String::from_str("player:");
                out.append(name.as_str());
                out.append(":uuid");
                out
            },
        }
    }

    /// The entry of the API key `key`: keys are held under their digest.
    pub open spec fn of_api_key(key: Seq<char>) -> CacheKey {
        CacheKey::ApiKey(array32_of(sha256_digest(vstd::utf8::encode_utf8(key))))
    }

    /// The entry of an API key.
    pub fn for_api_key(key: &str) -> (r: CacheKey)
        ensures
            r == CacheKey::of_api_key(key@),
    {
        let digest = sha256(key.as_bytes());
        assert(array32_of(digest@)@ == digest@);
        assert(array32_of(digest@) =~= digest);
        CacheKey::ApiKey(digest)
    }
}

/// Entries that are not the same entry have different names, so that the
/// cache never takes one for the other. (Of two API keys the names tell the
/// digests apart: see `render`.)
pub proof fn lemma_entry_names_differ(a: CacheKey, b: CacheKey)
    requires
        !a.same_entry(b),
        !(a is ApiKey && b is ApiKey),
    ensures
        a.name() != b.name(),
{
    reveal_strlit("plot:");
    reveal_strlit("key:");
    reveal_strlit("player:");
    reveal_strlit(":baton_trust");
    reveal_strlit(":uuid");
    let x = a.name();
    let y = b.name();
    assert("plot:"@.len() == 5);
    assert(":baton_trust"@.len() == 12);
    assert("player:"@.len() == 7);
    assert(":uuid"@.len() == 5);
    match (a, b) {
        (CacheKey::Plot(i), CacheKey::Plot(j)) => {
            lemma_int_text_differs(i as int, j as int);
            assert(x.skip(5) =~= int_text(i as int));
            assert(y.skip(5) =~= int_text(j as int));
        },
        (CacheKey::Trust(i), CacheKey::Trust(j)) => {
            lemma_int_text_differs(i as int, j as int);
            let ti = int_text(i as int);
            let tj = int_text(j as int);
            assert(x.len() == 5 + ti.len() + 12);
            assert(y.len() == 5 + tj.len() + 12);
            if x == y {
                assert(ti.len() == tj.len());
                assert(x.subrange(5, 5 + ti.len() as int) =~= ti);
                assert(y.subrange(5, 5 + tj.len() as int) =~= tj);
            }
        },
        (CacheKey::Plot(i), CacheKey::Trust(j)) => {
            lemma_int_text_parses(i as int);
            let ti = int_text(i as int);
            let tj = int_text(j as int);
            if x == y {
                assert(y[5 + tj.len() as int] == ':');
                assert(x[5 + tj.len() as int] == ti[tj.len() as int]);
                assert(is_digit(ti[tj.len() as int]) || ti[tj.len() as int] == '-');
            }
        },
        (CacheKey::Trust(i), CacheKey::Plot(j)) => {
            lemma_int_text_parses(j as int);
            let ti = int_text(i as int);
            let tj = int_text(j as int);
            if x == y {
                assert(x[5 + ti.len() as int] == ':');
                assert(y[5 + ti.len() as int] == tj[ti.len() as int]);
                assert(is_digit(tj[ti.len() as int]) || tj[ti.len() as int] == '-');
            }
        },
        (CacheKey::Player(m), CacheKey::Player(n)) => {
            assert(x.len() == 7 + m@.len() + 5);
            assert(y.len() == 7 + n@.len() + 5);
            if x == y {
                assert(m@.len() == n@.len());
                assert(x.subrange(7, 7 + m@.len() as int) =~= m@);
                assert(y.subrange(7, 7 + n@.len() as int) =~= n@);
            }
        },
        (CacheKey::ApiKey(_), _) => {
            assert(x[0] == 'k');
            assert(y[0] == 'p');
        },
        (_, CacheKey::ApiKey(_)) => {
            assert(y[0] == 'k');
            assert(x[0] == 'p');
        },
        (CacheKey::Player(_), _) => {
            assert(x[2] == 'a');
            assert(y[2] == 'o');
        },
        (_, CacheKey::Player(_)) => {
            assert(y[2] == 'a');
            assert(x[2] == 'o');
        },
    }
}

/// What the cache holds in an entry.
#[derive(Clone, Debug, PartialEq, Eq)]
pub enum CacheValue {
    Plot(Plot),
    Trust(TrustVec),
    Owner(u128),
}

/// A plot as the database holds it, joined with the instance it is assigned
/// to. No key means no assigned instance.
#[derive(Clone, Debug, PartialEq, Eq)]
pub struct PlotRow {
    pub id: PlotId,
    pub owner_uuid: u128,
    pub public_key: Option<Vec<u8>>,
    pub domain: Option<String>,
}

/// What a peer answers when it is asked to sign: its key and the
/// signature, both in base64.
#[derive(Clone, Debug, PartialEq, Eq)]
pub struct VerificationResponse {
    pub server_key: String,
    pub signature: String,
}

/// What the host is to do next.
#[derive(Clone, Debug, PartialEq, Eq)]
pub enum Command {
    /// Read an entry of the cache. Answered by `Reply::Cached`.
    CacheGet(CacheKey),
    /// Write an entry of the cache. Answered by `Reply::Done`.
    CacheSet(CacheKey, CacheValue),
    /// Remove an entry of the cache. Answered by `Reply::Done`.
    CacheDel(CacheKey),
    /// Open a transaction on the database. Answered by `Reply::Done`.
    Begin,
    /// Commit the open transaction. Answered by `Reply::Done`.
    Commit,
    /// Give up the open transaction. Answered by `Reply::Done`.
    Rollback,
    /// Look up the known instance with this key. Answered by `Reply::InstanceId`.
    FindInstance(PublicKey),
    /// Insert a plot. Answered by `Reply::Done`, or by `Reply::Conflict`
    /// where the plot number is taken.
    InsertPlot { plot: PlotId, owner: u128, instance: Option<i32> },
    /// Assign a plot to an instance. Answered by `Reply::Affected`.
    UpdatePlot { plot: PlotId, instance: Option<i32> },
    /// Read a plot with its instance. Answered by `Reply::Row`.
    SelectPlot(PlotId),
    /// Ask whether a plot is stored. Answered by `Reply::Present`.
    PlotPresent(PlotId),
    /// Delete the trust list of a plot. Answered by `Reply::Done`.
    DeleteTrust(PlotId),
    /// Insert trusted plots for a plot; one that is there already stays.
    /// Answered by `Reply::Done`.
    InsertTrust(PlotId, TrustVec),
    /// Read the trust list of a plot. Answered by `Reply::Trust`.
    SelectTrust(PlotId),
    /// Read the plot of an API key that is not disabled. Answered by `Reply::Row`.
    SelectKey(String),
    /// Store a new API key for a plot. Answered by `Reply::Done`.
    InsertKey(PlotId, String),
    /// Disable the API keys of a plot. Answered by `Reply::Hashes`, with the
    /// digests of the keys that were disabled.
    DisableKeys(PlotId),
    /// Ask the account service for a player. Answered by `Reply::Player`.
    ResolvePlayer(String),
    /// Ask the instance at `domain` to sign `challenge`. Answered by
    /// `Reply::Signature`.
    AskSignature { domain: ExternalDomain, challenge: String },
}

/// What the host found.
#[derive(Clone, Debug, PartialEq, Eq)]
pub enum Reply {
    /// The command could not be performed.
    Failed,
    Done,
    Conflict,
    Cached(Option<CacheValue>),
    InstanceId(Option<i32>),
    Affected(u64),
    Row(Option<PlotRow>),
    Present(bool),
    Trust(TrustVec),
    Hashes(Vec<Vec<u8>>),
    Player(Option<u128>),
    Signature(VerificationResponse),
}

/// Why an operation broke off for no reason of the caller's.
#[derive(Clone, Copy, PartialEq, Eq, Structural, Debug)]
pub enum StoreFault {
    /// The database, the cache or the network failed.
    Backend,
    /// The host answered a command with a reply of another kind.
    Protocol,
    /// A stored instance is none.
    Instance(InstanceError),
    /// The store contradicts itself.
    Inconsistent,
    /// A number below zero stands where the number of a plot should: such
    /// numbers are kept for the cache, and are never plots.
    NegativePlot,
}

/// How an operation goes on after a reply.
#[derive(Clone, Debug, PartialEq, Eq)]
pub enum Step<S, T> {
    /// The command is to be performed, and the operation resumed in this
    /// state with the reply.
    Next(S, Command),
    /// The operation is over.
    Done(T),
    /// The operation is over, and the command is to be performed behind
    /// it: whether it fails changes nothing.
    Settled(T, Command),
}

/// The part of the store that the library holds: the identity of this
/// instance. The connections are the host's.
#[derive(Clone, Copy)]
pub struct Store {
    pub secret_key: [u8; 32],
    pub public_key: PublicKey,
}

impl Store {
    /// The value is well formed.
    pub open spec fn wf(&self) -> bool {
        self.public_key@ == ed25519_public(self.secret_key@)
    }

    /// The store of the instance with this secret key.
    pub fn new(secret_key: [u8; 32]) -> (r: Store)
        ensures
            r.secret_key == secret_key,
            r.wf(),
    {
        Store { secret_key, public_key: PublicKey { bytes: public_of(&secret_key) } }
    }

    /// The key by which other instances know this one.
    pub fn public_key(&self) -> (r: PublicKey)
        ensures
            r == self.public_key,
    {
        self.public_key
    }

    /// This instance, as the instance of a plot.
    pub open spec fn current_instance(&self) -> Instance {
        Instance { key: self.public_key, domain: InstanceDomain::Current }
    }

    /// This instance, as the instance of a plot.
    pub fn construct_current_instance(&self) -> (r: Instance)
        ensures
            r == self.current_instance(),
    {
        Instance { key: self.public_key, domain: InstanceDomain::Current }
    }

    /// Signs a message with the secret key of this instance.
    pub fn sign(&self, msg: &[u8]) -> (r: [u8; 64])
        ensures
            r@ == ed25519_signature(self.secret_key@, msg@),
    {
        sign_with(&self.secret_key, msg)
    }
}

} // verus!
