//! Players: the account that belongs to a name, remembered for good once
//! the account service has told it.

use crate::codec::{uuid_of_text, uuid_parse, uuid_render, uuid_text};
use crate::store::{CacheKey, CacheValue, Command, Reply, Step, Store, StoreFault};
use vstd::prelude::*;
use vstd::string::*;

verus! {

/// Where the account service answers for a name.
pub open spec fn profile_address(name: Seq<char>) -> Seq<char> {
    "https://api.mojang.com/users/profiles/minecraft/"@ + name
}

/// The address to ask the account service at.
pub fn profile_url(name: &str) -> (r: String)
    ensures
        r@ == profile_address(name@),
{
    let mut out = String::from_str("https://api.mojang.com/users/profiles/minecraft/");
    out.append(name);
    out
}

/// The text under which the cache holds an account.
pub fn owner_cache_text(owner: u128) -> (r: String)
    ensures
        r@ == uuid_text(owner),
        uuid_of_text(r@) == Some(owner),
{
    uuid_render(owner)
}

/// The account that a text of the cache stands for.
pub fn owner_of_cache_text(text: &str) -> (r: Option<u128>)
    ensures
        r == uuid_of_text(text@),
{
    uuid_parse(text)
}

/// Looking up the account of a player: first the cache, and the account
/// service only where the cache has nothing. What the service told is put
/// into the cache before the answer. A service that does not answer is no
/// fault: the lookup ends without an account, as for a name that the
/// service does not know, and nothing is put into the cache.
#[derive(Debug, PartialEq, Eq)]
pub enum PlayerLookup {
    AwaitCache { name: String },
    AwaitProfile { name: String },
    AwaitStore { owner: u128 },
}

impl PlayerLookup {
    /// How the operation begins.
    pub open spec fn begin(name: String) -> Step<PlayerLookup, Result<Option<u128>, StoreFault>> {
        Step::Next(PlayerLookup::AwaitCache { name }, Command::CacheGet(CacheKey::Player(name)))
    }

    /// How the operation goes on after a reply.
    pub open spec fn step(self, reply: Reply) -> Step<
        PlayerLookup,
        Result<Option<u128>, StoreFault>,
    > {
        match self {
            PlayerLookup::AwaitCache { name } => match reply {
                Reply::Cached(Some(CacheValue::Owner(owner))) => Step::Done(Ok(Some(owner))),
                Reply::Cached(None) => Step::Next(
                    PlayerLookup::AwaitProfile { name },
                    Command::ResolvePlayer(name),
                ),
                Reply::Failed => Step::Done(Err(StoreFault::Backend)),
                _ => Step::Done(Err(StoreFault::Protocol)),
            },
            PlayerLookup::AwaitProfile { name } => match reply {
                Reply::Player(Some(owner)) => Step::Next(
                    PlayerLookup::AwaitStore { owner },
                    Command::CacheSet(CacheKey::Player(name), CacheValue::Owner(owner)),
                ),
                Reply::Player(None) => Step::Done(Ok(None)),
                Reply::Failed => Step::Done(Ok(None)),
                _ => Step::Done(Err(StoreFault::Protocol)),
            },
            PlayerLookup::AwaitStore { owner } => match reply {
                Reply::Done => Step::Done(Ok(Some(owner))),
                Reply::Failed => Step::Done(Err(StoreFault::Backend)),
                _ => Step::Done(Err(StoreFault::Protocol)),
            },
        }
    }

    /// Begins the operation.
    pub fn start(name: String) -> (r: Step<PlayerLookup, Result<Option<u128>, StoreFault>>)
        ensures
            r == PlayerLookup::begin(name),
    {
        let copy = name.clone();
        Step::Next(PlayerLookup::AwaitCache { name }, Command::CacheGet(CacheKey::Player(copy)))
    }

    /// Takes the reply to the last command and says how the operation goes on.
    pub fn resume(self, reply: Reply) -> (r: Step<PlayerLookup, Result<Option<u128>, StoreFault>>)
        ensures
            r == self.step(reply),
    {
        match self {
            PlayerLookup::AwaitCache { name } => match reply {
                Reply::Cached(Some(CacheValue::Owner(owner))) => Step::Done(Ok(Some(owner))),
                Reply::Cached(None) => {
                    let copy = name.clone();
                    Step::Next(PlayerLookup::AwaitProfile { name }, Command::ResolvePlayer(copy))
                },
                Reply::Failed => Step::Done(Err(StoreFault::Backend)),
                _ => Step::Done(Err(StoreFault::Protocol)),
            },
            PlayerLookup::AwaitProfile { name } => match reply {
                Reply::Player(Some(owner)) => Step::Next(
                    PlayerLookup::AwaitStore { owner },
                    Command::CacheSet(CacheKey::Player(name), CacheValue::Owner(owner)),
                ),
                Reply::Player(None) => Step::Done(Ok(None)),
                Reply::Failed => Step::Done(Ok(None)),
                _ => Step::Done(Err(StoreFault::Protocol)),
            },
            PlayerLookup::AwaitStore { owner } => match reply {
                Reply::Done => Step::Done(Ok(Some(owner))),
                Reply::Failed => Step::Done(Err(StoreFault::Backend)),
                _ => Step::Done(Err(StoreFault::Protocol)),
            },
        }
    }
}

impl Store {
    /// Begins looking up the account of the player `name`.
    pub fn get_uuid(&self, name: String) -> (r: Step<PlayerLookup, Result<Option<u128>, StoreFault>>)
        ensures
            r == PlayerLookup::begin(name),
    {
        PlayerLookup::start(name)
    }
}

} // verus!
