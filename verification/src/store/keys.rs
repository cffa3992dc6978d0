//! API keys: looking one up, issuing one, disabling those of a plot.

use crate::auth::Plot;
use crate::codec::{is_alphanumeric, random_alphanumeric};
use crate::instance::{Instance, InstanceDomain};
use crate::keys::{array32_of, to_array32, PublicKey};
use crate::store::instance::{resolve_row, row_plot};
use crate::store::{CacheKey, CacheValue, Command, Reply, Step, Store, StoreFault};
use crate::PlotId;
use vstd::prelude::*;

verus! {

/// The plot number under which the cache remembers that an API key is none.
pub const SENTINEL_PLOT: PlotId = -1;

/// How many characters an API key has.
pub const API_KEY_LENGTH: usize = 32;

/// What the cache holds for an API key that is none.
pub open spec fn sentinel(current: PublicKey) -> Plot {
    Plot {
        plot_id: SENTINEL_PLOT,
        owner: 0,
        instance: Instance { key: current, domain: InstanceDomain::Current },
    }
}

/// Looking up an API key: first the cache, under the key's digest, and the
/// database only where the cache has nothing. What the database gave is put
/// into the cache before the answer, also where it gave nothing. A cached
/// plot with a number below zero stands for none; a stored row with such a
/// number is a fault, and is not put into the cache.
#[derive(Debug, PartialEq, Eq)]
pub enum KeyLookup {
    AwaitCache { key: String, current: PublicKey },
    AwaitRow { entry: CacheKey, current: PublicKey },
    AwaitStore { found: Option<Plot> },
}

impl KeyLookup {
    /// How the operation begins.
    pub open spec fn begin(key: String, current: PublicKey) -> Step<
        KeyLookup,
        Result<Option<Plot>, StoreFault>,
    > {
        Step::Next(
            KeyLookup::AwaitCache { key, current },
            Command::CacheGet(CacheKey::of_api_key(key@)),
        )
    }

    /// How the operation goes on after a reply.
    pub open spec fn step(self, reply: Reply) -> Step<KeyLookup, Result<Option<Plot>, StoreFault>> {
        match self {
            KeyLookup::AwaitCache { key, current } => match reply {
                Reply::Cached(Some(CacheValue::Plot(found))) => if found.plot_id < 0 {
                    Step::Done(Ok(None))
                } else {
                    Step::Done(Ok(Some(found)))
                },
                Reply::Cached(None) => Step::Next(
                    KeyLookup::AwaitRow { entry: CacheKey::of_api_key(key@), current },
                    Command::SelectKey(key),
                ),
                Reply::Failed => Step::Done(Err(StoreFault::Backend)),
                _ => Step::Done(Err(StoreFault::Protocol)),
            },
            KeyLookup::AwaitRow { entry, current } => match reply {
                Reply::Row(Some(row)) => match row_plot(row, current) {
                    Ok(found) => if found.plot_id < 0 {
                        Step::Done(Err(StoreFault::NegativePlot))
                    } else {
                        Step::Next(
                            KeyLookup::AwaitStore { found: Some(found) },
                            Command::CacheSet(entry, CacheValue::Plot(found)),
                        )
                    },
                    Err(e) => Step::Done(Err(e)),
                },
                Reply::Row(None) => Step::Next(
                    KeyLookup::AwaitStore { found: None },
                    Command::CacheSet(entry, CacheValue::Plot(sentinel(current))),
                ),
                Reply::Failed => Step::Done(Err(StoreFault::Backend)),
                _ => Step::Done(Err(StoreFault::Protocol)),
            },
            KeyLookup::AwaitStore { found } => match reply {
                Reply::Done => Step::Done(Ok(found)),
                Reply::Failed => Step::Done(Err(StoreFault::Backend)),
                _ => Step::Done(Err(StoreFault::Protocol)),
            },
        }
    }

    /// Takes the reply to the last command and says how the operation goes on.
    pub fn resume(self, reply: Reply) -> (r: Step<KeyLookup, Result<Option<Plot>, StoreFault>>)
        ensures
            r == self.step(reply),
    {
        match self {
            KeyLookup::AwaitCache { key, current } => match reply {
                Reply::Cached(Some(CacheValue::Plot(found))) => {
                    if found.plot_id < 0 {
                        Step::Done(Ok(None))
                    } else {
                        Step::Done(Ok(Some(found)))
                    }
                },
                Reply::Cached(None) => {
                    let entry = CacheKey::for_api_key(key.as_str());
                    Step::Next(KeyLookup::AwaitRow { entry, current }, Command::SelectKey(key))
                },
                Reply::Failed => Step::Done(Err(StoreFault::Backend)),
                _ => Step::Done(Err(StoreFault::Protocol)),
            },
            KeyLookup::AwaitRow { entry, current } => match reply {
                Reply::Row(Some(row)) => match resolve_row(row, current) {
                    Ok(found) => {
                        if found.plot_id < 0 {
                            return Step::Done(Err(StoreFault::NegativePlot));
                        }
                        let copy = found.clone();
                        Step::Next(
                            KeyLookup::AwaitStore { found: Some(found) },
                            Command::CacheSet(entry, CacheValue::Plot(copy)),
                        )
                    },
                    Err(e) => Step::Done(Err(e)),
                },
                Reply::Row(None) => Step::Next(
                    KeyLookup::AwaitStore { found: None },
                    Command::CacheSet(
                        entry,
                        CacheValue::Plot(
                            Plot {
                                plot_id: SENTINEL_PLOT,
                                owner: 0,
                                instance: Instance { key: current, domain: InstanceDomain::Current },
                            },
                        ),
                    ),
                ),
                Reply::Failed => Step::Done(Err(StoreFault::Backend)),
                _ => Step::Done(Err(StoreFault::Protocol)),
            },
            KeyLookup::AwaitStore { found } => match reply {
                Reply::Done => Step::Done(Ok(found)),
                Reply::Failed => Step::Done(Err(StoreFault::Backend)),
                _ => Step::Done(Err(StoreFault::Protocol)),
            },
        }
    }
}

/// Issuing an API key: the key is stored, then handed out.
#[derive(Debug, PartialEq, Eq)]
pub struct KeyIssue {
    pub key: String,
}

impl KeyIssue {
    /// How the operation begins.
    pub open spec fn begin(plot: PlotId, key: String) -> Step<KeyIssue, Result<String, StoreFault>> {
        Step::Next(KeyIssue { key }, Command::InsertKey(plot, key))
    }

    /// How the operation goes on after a reply.
    pub open spec fn step(self, reply: Reply) -> Step<KeyIssue, Result<String, StoreFault>> {
        match reply {
            Reply::Done => Step::Done(Ok(self.key)),
            Reply::Failed => Step::Done(Err(StoreFault::Backend)),
            _ => Step::Done(Err(StoreFault::Protocol)),
        }
    }

    /// Begins storing `key` for a plot.
    pub fn start(plot: PlotId, key: String) -> (r: Step<KeyIssue, Result<String, StoreFault>>)
        ensures
            r == KeyIssue::begin(plot, key),
    {
        let copy = key.clone();
        Step::Next(KeyIssue { key }, Command::InsertKey(plot, copy))
    }

    /// Takes the reply to the last command and says how the operation goes on.
    pub fn resume(self, reply: Reply) -> (r: Step<KeyIssue, Result<String, StoreFault>>)
        ensures
            r == self.step(reply),
    {
        match reply {
            Reply::Done => Step::Done(Ok(self.key)),
            Reply::Failed => Step::Done(Err(StoreFault::Backend)),
            _ => Step::Done(Err(StoreFault::Protocol)),
        }
    }
}

/// Disabling the API keys of a plot: the database disables them and names
/// their digests, and the cache entry of each goes.
#[derive(Debug, PartialEq, Eq)]
pub enum KeyPurge {
    AwaitHashes,
    Clearing { hashes: Vec<Vec<u8>>, next: usize },
}

impl KeyPurge {
    /// Goes on with the digest at place `next`, or ends where there is none
    /// left. A digest that has not 32 bytes is none.
    pub open spec fn clear_from(hashes: Vec<Vec<u8>>, next: usize) -> Step<
        KeyPurge,
        Result<(), StoreFault>,
    > {
        if next >= hashes@.len() {
            Step::Done(Ok(()))
        } else if hashes@[next as int]@.len() != 32 {
            Step::Done(Err(StoreFault::Inconsistent))
        } else {
            Step::Next(
                KeyPurge::Clearing { hashes, next: (next + 1) as usize },
                Command::CacheDel(CacheKey::ApiKey(array32_of(hashes@[next as int]@))),
            )
        }
    }

    /// How the operation begins.
    pub open spec fn begin(plot: PlotId) -> Step<KeyPurge, Result<(), StoreFault>> {
        Step::Next(KeyPurge::AwaitHashes, Command::DisableKeys(plot))
    }

    /// How the operation goes on after a reply.
    pub open spec fn step(self, reply: Reply) -> Step<KeyPurge, Result<(), StoreFault>> {
        match self {
            KeyPurge::AwaitHashes => match reply {
                Reply::Hashes(hashes) => Self::clear_from(hashes, 0),
                Reply::Failed => Step::Done(Err(StoreFault::Backend)),
                _ => Step::Done(Err(StoreFault::Protocol)),
            },
            KeyPurge::Clearing { hashes, next } => match reply {
                Reply::Done => Self::clear_from(hashes, next),
                Reply::Failed => Step::Done(Err(StoreFault::Backend)),
                _ => Step::Done(Err(StoreFault::Protocol)),
            },
        }
    }

    fn clear(hashes: Vec<Vec<u8>>, next: usize) -> (r: Step<KeyPurge, Result<(), StoreFault>>)
        ensures
            r == Self::clear_from(hashes, next),
    {
        if next >= hashes.len() {
            return Step::Done(Ok(()));
        }
        match to_array32(hashes[next].as_slice()) {
            None => Step::Done(Err(StoreFault::Inconsistent)),
            Some(digest) => Step::Next(
                KeyPurge::Clearing { hashes, next: next + 1 },
                Command::CacheDel(CacheKey::ApiKey(digest)),
            ),
        }
    }

    /// Takes the reply to the last command and says how the operation goes on.
    pub fn resume(self, reply: Reply) -> (r: Step<KeyPurge, Result<(), StoreFault>>)
        ensures
            r == self.step(reply),
    {
        match self {
            KeyPurge::AwaitHashes => match reply {
                Reply::Hashes(hashes) => Self::clear(hashes, 0),
                Reply::Failed => Step::Done(Err(StoreFault::Backend)),
                _ => Step::Done(Err(StoreFault::Protocol)),
            },
            KeyPurge::Clearing { hashes, next } => match reply {
                Reply::Done => Self::clear(hashes, next),
                Reply::Failed => Step::Done(Err(StoreFault::Backend)),
                _ => Step::Done(Err(StoreFault::Protocol)),
            },
        }
    }
}

impl Store {
    /// Begins looking up an API key.
    pub fn verify_key(&self, key: String) -> (r: Step<KeyLookup, Result<Option<Plot>, StoreFault>>)
        ensures
            r == KeyLookup::begin(key, self.public_key),
    {
        let entry = CacheKey::for_api_key(key.as_str());
        Step::Next(
            KeyLookup::AwaitCache { key, current: self.public_key },
            Command::CacheGet(entry),
        )
    }

    /// Begins issuing an API key for a plot: 32 letters and digits, drawn
    /// at random.
    pub fn create_key(&self, plot_id: PlotId) -> (r: Step<KeyIssue, Result<String, StoreFault>>)
        ensures
            r matches Step::Next(issue, Command::InsertKey(plot, key)) && plot == plot_id && key
                == issue.key && key@.len() == API_KEY_LENGTH && forall|i: int|
                0 <= i < key@.len() ==> is_alphanumeric(#[trigger] key@[i]),
    {
        KeyIssue::start(plot_id, random_alphanumeric(API_KEY_LENGTH))
    }

    /// Begins disabling the API keys of a plot.
    pub fn disable_all_keys(&self, plot_id: PlotId) -> (r: Step<KeyPurge, Result<(), StoreFault>>)
        ensures
            r == KeyPurge::begin(plot_id),
    {
        Step::Next(KeyPurge::AwaitHashes, Command::DisableKeys(plot_id))
    }
}

} // verus!
