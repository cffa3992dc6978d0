//! A model of what the host's commands do, and what the operations of the
//! store achieve when they are run against it one after another: the
//! database with its transactions, and the cache in front of it.

use crate::api::baton::{SetTrustedSeen, SetTrustedView};
use crate::auth::Plot;
use crate::codec::sha256_digest;
use crate::keys::{array32_of, PublicKey};
use crate::store::baton::{PlotTrustSetError, TrustReplace};
use crate::store::instance::{
    found_any, row_plot, EditPlot, PlotEditError, PlotExists, PlotLookup, RegisterError,
    RegisterPlot,
};
use crate::store::baton::TrustLookupView;
use crate::store::keys::{sentinel, KeyLookup, KeyPurge};
use crate::store::players::PlayerLookup;
use crate::store::{CacheKey, CacheValue, Command, PlotRow, Reply, Step, StoreFault, TrustVec};
use crate::PlotId;
use vstd::prelude::*;

verus! {

/// A plot as the database holds it: its owner, and the known instance it
/// is assigned to, if any.
pub struct PlotRecord {
    pub owner: u128,
    pub instance: Option<i32>,
}

/// An instance that the database knows.
pub struct KnownInstance {
    pub public_key: Vec<u8>,
    pub domain: String,
}

/// An API key as the database holds it.
pub struct KeyRecord {
    pub plot: PlotId,
    pub disabled: bool,
}

/// The tables of the database.
pub struct Tables {
    pub plots: Map<PlotId, PlotRecord>,
    pub instances: Map<i32, KnownInstance>,
    /// The plots that each plot trusts. A plot without an entry trusts none.
    pub trust: Map<PlotId, Set<PlotId>>,
    /// The API keys, by their text.
    pub keys: Map<Seq<char>, KeyRecord>,
}

/// The database, the transaction that is open on it, the cache, and the
/// account service.
pub struct World {
    pub db: Tables,
    pub tx: Option<Tables>,
    pub cache: Map<CacheKey, CacheValue>,
    /// The accounts that the account service knows, by the players' names.
    pub accounts: Map<Seq<char>, u128>,
}

impl Tables {
    /// The row of a plot, joined with its instance. An instance that is
    /// not known joins as none.
    pub open spec fn row(self, plot: PlotId) -> PlotRow {
        let record = self.plots[plot];
        match record.instance {
            Some(id) if self.instances.contains_key(id) => PlotRow {
                id: plot,
                owner_uuid: record.owner,
                public_key: Some(self.instances[id].public_key),
                domain: Some(self.instances[id].domain),
            },
            _ => PlotRow { id: plot, owner_uuid: record.owner, public_key: None, domain: None },
        }
    }

    /// The row of a plot, if the plot is there.
    pub open spec fn select_plot(self, plot: PlotId) -> Option<PlotRow> {
        if self.plots.contains_key(plot) {
            Some(self.row(plot))
        } else {
            None
        }
    }

    /// The plot of an API key that is there, not disabled, and belongs to a
    /// plot that is there.
    pub open spec fn select_key(self, key: Seq<char>) -> Option<PlotRow> {
        if self.keys.contains_key(key) && !self.keys[key].disabled && self.plots.contains_key(
            self.keys[key].plot,
        ) {
            Some(self.row(self.keys[key].plot))
        } else {
            None
        }
    }

    /// The known instance `id` has the key `key`.
    pub open spec fn has_instance(self, key: PublicKey, id: i32) -> bool {
        self.instances.contains_key(id) && self.instances[id].public_key@ == key@
    }

    /// A known instance with the key `key`, if there is one.
    pub open spec fn find_instance(self, key: PublicKey) -> Option<i32> {
        if exists|id: i32| self.has_instance(key, id) {
            Some(choose|id: i32| self.has_instance(key, id))
        } else {
            None
        }
    }

    /// The plots that a plot trusts.
    pub open spec fn trusted(self, plot: PlotId) -> Set<PlotId> {
        if self.trust.contains_key(plot) {
            self.trust[plot]
        } else {
            Set::empty()
        }
    }

    /// The tables with other plots.
    pub open spec fn with_plots(self, plots: Map<PlotId, PlotRecord>) -> Tables {
        Tables { plots, instances: self.instances, trust: self.trust, keys: self.keys }
    }

    /// The tables with other trust lists.
    pub open spec fn with_trust(self, trust: Map<PlotId, Set<PlotId>>) -> Tables {
        Tables { plots: self.plots, instances: self.instances, trust, keys: self.keys }
    }

    /// The tables with other API keys.
    pub open spec fn with_keys(self, keys: Map<Seq<char>, KeyRecord>) -> Tables {
        Tables { plots: self.plots, instances: self.instances, trust: self.trust, keys }
    }

    /// `key` is a key of `plot` that is not disabled.
    pub open spec fn is_active_key(self, plot: PlotId, key: Seq<char>) -> bool {
        self.keys.contains_key(key) && self.keys[key].plot == plot && !self.keys[key].disabled
    }

    /// The API keys once those of `plot` are disabled: every key is still
    /// there, those of `plot` are disabled, the others are as they were.
    pub open spec fn disabled_keys(self, plot: PlotId) -> Map<Seq<char>, KeyRecord> {
        Map::new(
            |key: Seq<char>| self.keys.contains_key(key),
            |key: Seq<char>|
                if self.keys[key].plot == plot {
                    KeyRecord { plot, disabled: true }
                } else {
                    self.keys[key]
                },
        )
    }
}

/// `list` names each of the plots in `plots` once, and no other plot.
pub open spec fn is_list_of(list: TrustVec, plots: Set<PlotId>) -> bool {
    list@.to_set() == plots && list@.no_duplicates()
}

/// Some list of the plots in `plots`, each of them once.
pub open spec fn some_list(plots: Set<PlotId>) -> TrustVec {
    choose|list: TrustVec| is_list_of(list, plots)
}

/// The digest under which the cache holds the API key `key`.
pub open spec fn key_digest(key: Seq<char>) -> Seq<u8> {
    sha256_digest(vstd::utf8::encode_utf8(key))
}

/// `hashes` lists the digest of every key of `plot` that is not disabled,
/// and holds digests only: entries of 32 bytes.
pub open spec fn are_digests_of(hashes: Vec<Vec<u8>>, tables: Tables, plot: PlotId) -> bool {
    &&& forall|key: Seq<char>| #[trigger]
        tables.is_active_key(plot, key) ==> exists|i: int|
            0 <= i < hashes@.len() && (#[trigger] hashes@[i])@ == key_digest(key)
    &&& forall|i: int| 0 <= i < hashes@.len() ==> (#[trigger] hashes@[i])@.len() == 32
}

/// Some list of the digests of the keys of `plot` that are not disabled.
pub open spec fn some_digests(tables: Tables, plot: PlotId) -> Vec<Vec<u8>> {
    choose|hashes: Vec<Vec<u8>>| are_digests_of(hashes, tables, plot)
}

impl World {
    /// The tables that a statement works on: those of the open
    /// transaction, or the database itself.
    pub open spec fn active(self) -> Tables {
        match self.tx {
            Some(tables) => tables,
            None => self.db,
        }
    }

    /// The world after a statement has left the tables `tables` behind.
    pub open spec fn written(self, tables: Tables) -> World {
        match self.tx {
            Some(_) => World { db: self.db, tx: Some(tables), cache: self.cache, accounts: self.accounts },
            None => World { db: tables, tx: None, cache: self.cache, accounts: self.accounts },
        }
    }

    /// The world with another cache.
    pub open spec fn cached(self, cache: Map<CacheKey, CacheValue>) -> World {
        World { db: self.db, tx: self.tx, cache, accounts: self.accounts }
    }

    /// What the cache holds under `key`, if anything.
    pub open spec fn lookup(self, key: CacheKey) -> Option<CacheValue> {
        if self.cache.contains_key(key) {
            Some(self.cache[key])
        } else {
            None
        }
    }

    /// What a command does to the world, and what the host answers. The
    /// world has no peers; nothing else fails in it but a commit without a
    /// transaction.
    pub open spec fn perform(self, command: Command) -> (World, Reply) {
        let t = self.active();
        match command {
            Command::CacheGet(key) => (self, Reply::Cached(self.lookup(key))),
            Command::CacheSet(key, value) => (
                self.cached(self.cache.insert(key, value)),
                Reply::Done,
            ),
            Command::CacheDel(key) => (self.cached(self.cache.remove(key)), Reply::Done),
            Command::Begin => (
                World { db: self.db, tx: Some(self.db), cache: self.cache, accounts: self.accounts },
                Reply::Done,
            ),
            Command::Commit => match self.tx {
                Some(tables) => (World { db: tables, tx: None, cache: self.cache, accounts: self.accounts }, Reply::Done),
                None => (self, Reply::Failed),
            },
            Command::Rollback => (World { db: self.db, tx: None, cache: self.cache, accounts: self.accounts }, Reply::Done),
            Command::FindInstance(key) => (self, Reply::InstanceId(t.find_instance(key))),
            Command::InsertPlot { plot, owner, instance } => if t.plots.contains_key(plot) {
                (self, Reply::Conflict)
            } else {
                (
                    self.written(t.with_plots(t.plots.insert(plot, PlotRecord { owner, instance }))),
                    Reply::Done,
                )
            },
            Command::UpdatePlot { plot, instance } => if t.plots.contains_key(plot) {
                (
                    self.written(
                        t.with_plots(
                            t.plots.insert(plot, PlotRecord { owner: t.plots[plot].owner, instance }),
                        ),
                    ),
                    Reply::Affected(1),
                )
            } else {
                (self, Reply::Affected(0))
            },
            Command::SelectPlot(plot) => (self, Reply::Row(t.select_plot(plot))),
            Command::PlotPresent(plot) => (self, Reply::Present(t.plots.contains_key(plot))),
            Command::DeleteTrust(plot) => (
                self.written(t.with_trust(t.trust.remove(plot))),
                Reply::Done,
            ),
            Command::InsertTrust(plot, list) => (
                self.written(
                    t.with_trust(t.trust.insert(plot, t.trusted(plot).union(list@.to_set()))),
                ),
                Reply::Done,
            ),
            Command::SelectTrust(plot) => (self, Reply::Trust(some_list(t.trusted(plot)))),
            Command::SelectKey(key) => (self, Reply::Row(t.select_key(key@))),
            Command::InsertKey(plot, key) => (
                self.written(t.with_keys(t.keys.insert(key@, KeyRecord { plot, disabled: false }))),
                Reply::Done,
            ),
            Command::DisableKeys(plot) => (
                self.written(t.with_keys(t.disabled_keys(plot))),
                Reply::Hashes(some_digests(t, plot)),
            ),
            Command::ResolvePlayer(name) => (
                self,
                Reply::Player(
                    if self.accounts.contains_key(name@) {
                        Some(self.accounts[name@])
                    } else {
                        None
                    },
                ),
            ),
            Command::AskSignature { .. } => (self, Reply::Failed),
        }
    }
}

/// Whether a command reads or writes the database.
pub open spec fn is_statement(command: Command) -> bool {
    match command {
        Command::CacheGet(_) => false,
        Command::CacheSet(_, _) => false,
        Command::CacheDel(_) => false,
        Command::ResolvePlayer(_) => false,
        Command::AskSignature { .. } => false,
        _ => true,
    }
}

/// How a run of an operation ended: the world it left, its result (none,
/// where the run was cut short), and how many statements the database saw.
pub struct Outcome<T> {
    pub world: World,
    pub result: Option<T>,
    pub statements: nat,
}

/// Runs an operation against the world: each command is performed and the
/// operation resumed with the reply, `fuel` times at most.
pub open spec fn run<S, T>(
    world: World,
    step: Step<S, T>,
    resume: spec_fn(S, Reply) -> Step<S, T>,
    fuel: nat,
) -> Outcome<T>
    decreases fuel,
{
    match step {
        Step::Done(result) => Outcome { world, result: Some(result), statements: 0 },
        Step::Settled(result, command) => Outcome {
            world: world.perform(command).0,
            result: Some(result),
            statements: if is_statement(command) {
                1
            } else {
                0
            },
        },
        Step::Next(state, command) => if fuel == 0 {
            Outcome { world, result: None, statements: 0 }
        } else {
            let (after, reply) = world.perform(command);
            let rest = run(after, resume(state, reply), resume, (fuel - 1) as nat);
            Outcome {
                world: rest.world,
                result: rest.result,
                statements: rest.statements + if is_statement(command) {
                    1nat
                } else {
                    0nat
                },
            }
        },
    }
}

/// Reading a plot in the world.
pub open spec fn get_plot(world: World, plot: PlotId, current: PublicKey) -> Outcome<
    Result<Option<Plot>, StoreFault>,
> {
    run(
        world,
        PlotLookup::begin(plot, current),
        |s: PlotLookup, reply: Reply| s.step(reply),
        2,
    )
}

/// Registering a plot in the world.
pub open spec fn register_plot(world: World, plot: PlotId, owner: u128, key: Option<PublicKey>)
    -> Outcome<Result<Result<(), RegisterError>, StoreFault>> {
    run(
        world,
        RegisterPlot::begin(plot, owner, key),
        |s: RegisterPlot, reply: Reply| s.step(reply),
        7,
    )
}

/// Assigning a plot to another instance in the world.
pub open spec fn edit_plot(world: World, plot: PlotId, key: Option<PublicKey>) -> Outcome<
    Result<Result<(), PlotEditError>, StoreFault>,
> {
    run(world, EditPlot::begin(plot, key), |s: EditPlot, reply: Reply| s.step(reply), 7)
}

/// Replacing a trust list in the world.
pub open spec fn set_plot_trust(world: World, plot: PlotId, trusts: Vec<PlotId>) -> Outcome<
    Result<Result<(), PlotTrustSetError>, StoreFault>,
> {
    run(world, TrustReplace::begin(plot, trusts), replace_resume(), 7)
}

/// How the replacement of a trust list is resumed.
pub open spec fn replace_resume() -> spec_fn(TrustReplace, Reply) -> Step<
    TrustReplace,
    Result<Result<(), PlotTrustSetError>, StoreFault>,
> {
    |s: TrustReplace, reply: Reply| s.step(reply)
}

/// Looking up an API key in the world.
pub open spec fn verify_key(world: World, key: String, current: PublicKey) -> Outcome<
    Result<Option<Plot>, StoreFault>,
> {
    run(world, KeyLookup::begin(key, current), |s: KeyLookup, reply: Reply| s.step(reply), 3)
}

/// What the database alone says of a plot.
pub open spec fn stored_plot(tables: Tables, plot: PlotId, current: PublicKey) -> Result<
    Option<Plot>,
    StoreFault,
> {
    match tables.select_plot(plot) {
        None => Ok(None),
        Some(row) => match row_plot(row, current) {
            Ok(found) => Ok(Some(found)),
            Err(e) => Err(e),
        },
    }
}

/// The cache has nothing for a plot, or what the database says of it.
pub open spec fn plot_cache_agrees(world: World, plot: PlotId, current: PublicKey) -> bool {
    match world.lookup(CacheKey::Plot(plot)) {
        None => true,
        Some(value) => stored_plot(world.db, plot, current) == Ok::<Option<Plot>, StoreFault>(
            Some(value->Plot_0),
        ) && value is Plot,
    }
}

/// Reading a plot gives what the database says of it, whether the cache
/// has the plot or not, and leaves the cache agreeing with the database.
/// Where the cache had nothing, the database is asked once, and what it
/// gave is in the cache afterwards.
pub proof fn lemma_get_plot_reads_database(world: World, plot: PlotId, current: PublicKey)
    requires
        world.tx is None,
        plot_cache_agrees(world, plot, current),
    ensures
        ({
            let read = get_plot(world, plot, current);
            &&& read.result == Some(stored_plot(world.db, plot, current))
            &&& read.world.db == world.db
            &&& read.world.tx is None
            &&& plot_cache_agrees(read.world, plot, current)
            &&& world.lookup(CacheKey::Plot(plot)) is Some ==> read.statements == 0 && read.world
                == world
            &&& world.lookup(CacheKey::Plot(plot)) is None ==> read.statements == 1
            &&& world.lookup(CacheKey::Plot(plot)) is None ==> (stored_plot(world.db, plot, current)
                matches Ok(Some(found)) ==> read.world.lookup(CacheKey::Plot(plot)) == Some(
                CacheValue::Plot(found),
            ))
        }),
{
    reveal_with_fuel(run, 3);
}

/// Two readers that both find nothing in the cache for a plot both read
/// the same from the database and both write the same into the cache:
/// whichever write comes last, the cache holds what the database says, and
/// a later reader gets the same answer from the cache.
pub proof fn lemma_population_race(world: World, plot: PlotId, current: PublicKey)
    requires
        world.tx is None,
        world.lookup(CacheKey::Plot(plot)) is None,
    ensures
        ({
            let first = PlotLookup::AwaitRow { plot, current }.step(
                Reply::Row(world.db.select_plot(plot)),
            );
            let second = PlotLookup::AwaitRow { plot, current }.step(
                Reply::Row(world.db.select_plot(plot)),
            );
            &&& first == second
            &&& first matches Step::Settled(result, write) ==> {
                let once = world.perform(write).0;
                let twice = once.perform(write).0;
                &&& result == stored_plot(world.db, plot, current)
                &&& twice == once
                &&& get_plot(once, plot, current).result == Some(result)
                &&& get_plot(once, plot, current).statements == 0
            }
            &&& first matches Step::Done(result) ==> result == stored_plot(world.db, plot, current)
            &&& !(first is Next)
        }),
{
    reveal_with_fuel(run, 3);
    let first = PlotLookup::AwaitRow { plot, current }.step(Reply::Row(world.db.select_plot(plot)));
    match first {
        Step::Settled(result, write) => {
            let once = world.perform(write).0;
            let twice = once.perform(write).0;
            assert(twice.cache =~= once.cache);
        },
        _ => {},
    }
}

/// The plot that a stored row describes carries the row's number and owner,
/// and the key of the row's instance, or this instance where the row has none.
pub proof fn lemma_row_plot(row: PlotRow, current: PublicKey)
    ensures
        row_plot(row, current) matches Ok(found) ==> {
            &&& found.plot_id == row.id
            &&& found.owner == row.owner_uuid
            &&& row.public_key matches Some(key) ==> found.instance.key@ == key@
            &&& row.public_key is None ==> found.instance == (crate::instance::Instance {
                key: current,
                domain: crate::instance::InstanceDomain::Current,
            })
        },
{
    match row.public_key {
        Some(key) => {
            if key@.len() == 32 {
                lemma_array_exists(key@);
            }
        },
        None => {},
    }
}

/// Any 32 bytes are held by some array.
pub proof fn lemma_array_exists(bytes: Seq<u8>)
    requires
        bytes.len() == 32,
    ensures
        exists|a: [u8; 32]| a@ == bytes,
{
    let a: [u8; 32] = [
        bytes[0], bytes[1], bytes[2], bytes[3], bytes[4], bytes[5], bytes[6], bytes[7],
        bytes[8], bytes[9], bytes[10], bytes[11], bytes[12], bytes[13], bytes[14], bytes[15],
        bytes[16], bytes[17], bytes[18], bytes[19], bytes[20], bytes[21], bytes[22], bytes[23],
        bytes[24], bytes[25], bytes[26], bytes[27], bytes[28], bytes[29], bytes[30], bytes[31],
    ];
    assert(a@ =~= bytes);
}

/// Once a registration has succeeded, the plot was not there before, it is
/// there now with the given owner and the instance found for the given key,
/// the cache holds nothing for it, and the next reading gives the plot as
/// it was written, never what was read before the write.
pub proof fn lemma_register_then_get(
    world: World,
    plot: PlotId,
    owner: u128,
    key: Option<PublicKey>,
    current: PublicKey,
)
    requires
        world.tx is None,
        register_plot(world, plot, owner, key).result == Some(
            Ok::<Result<(), RegisterError>, StoreFault>(Ok(())),
        ),
    ensures
        ({
            let after = register_plot(world, plot, owner, key).world;
            let read = get_plot(after, plot, current);
            &&& !world.db.plots.contains_key(plot)
            &&& after.tx is None
            &&& after.cache == world.cache.remove(CacheKey::Plot(plot)).remove(
                CacheKey::Trust(plot),
            )
            &&& after.db == world.db.with_plots(
                world.db.plots.insert(
                    plot,
                    PlotRecord { owner, instance: after.db.plots[plot].instance },
                ),
            )
            &&& key is None ==> after.db.plots[plot].instance is None
            &&& key matches Some(k) ==> after.db.plots[plot].instance matches Some(id)
                && world.db.has_instance(k, id)
            &&& read.result == Some(stored_plot(after.db, plot, current))
            &&& read.result != Some(stored_plot(world.db, plot, current))
            &&& read.result matches Some(Ok(Some(found))) ==> {
                &&& found.plot_id == plot
                &&& found.owner == owner
                &&& key matches Some(k) ==> found.instance.key@ == k@
                &&& key is None ==> found.instance.key == current
            }
        }),
{
    reveal_with_fuel(run, 8);
    let after = register_plot(world, plot, owner, key).world;
    let cleared = world.cache.remove(CacheKey::Plot(plot)).remove(CacheKey::Trust(plot));
    assert(after.cache =~= cleared);
    assert(after.lookup(CacheKey::Plot(plot)) is None);
    lemma_get_plot_reads_database(after, plot, current);
    lemma_row_plot(after.db.row(plot), current);
    assert(after.db.plots =~= world.db.plots.insert(
        plot,
        PlotRecord { owner, instance: after.db.plots[plot].instance },
    ));
}

/// Once an assignment has succeeded, the plot is assigned to the instance
/// found for the given key, the cache holds nothing for it, and the next
/// reading asks the database and gives the plot with that instance: what
/// the cache held before the write, of an instance with another key, is
/// never read again.
pub proof fn lemma_edit_then_get(
    world: World,
    plot: PlotId,
    key: Option<PublicKey>,
    current: PublicKey,
)
    requires
        world.tx is None,
        edit_plot(world, plot, key).result == Some(
            Ok::<Result<(), PlotEditError>, StoreFault>(Ok(())),
        ),
    ensures
        ({
            let after = edit_plot(world, plot, key).world;
            let read = get_plot(after, plot, current);
            &&& world.db.plots.contains_key(plot)
            &&& after.tx is None
            &&& after.cache == world.cache.remove(CacheKey::Plot(plot)).remove(
                CacheKey::Trust(plot),
            )
            &&& after.db == world.db.with_plots(
                world.db.plots.insert(
                    plot,
                    PlotRecord {
                        owner: world.db.plots[plot].owner,
                        instance: after.db.plots[plot].instance,
                    },
                ),
            )
            &&& key is None ==> after.db.plots[plot].instance is None
            &&& key matches Some(k) ==> after.db.plots[plot].instance matches Some(id)
                && world.db.has_instance(k, id)
            &&& read.result == Some(stored_plot(after.db, plot, current))
            &&& read.statements == 1
            &&& read.result matches Some(Ok(Some(found))) ==> {
                &&& found.plot_id == plot
                &&& found.owner == world.db.plots[plot].owner
                &&& key matches Some(k) ==> found.instance.key@ == k@
                &&& key is None ==> found.instance.key == current
            }
            &&& world.lookup(CacheKey::Plot(plot)) matches Some(CacheValue::Plot(old)) ==> {
                let wanted = match key {
                    Some(k) => k,
                    None => current,
                };
                old.instance.key@ != wanted@ ==> read.result != Some(
                    Ok::<Option<Plot>, StoreFault>(Some(old)),
                )
            }
        }),
{
    reveal_with_fuel(run, 8);
    let after = edit_plot(world, plot, key).world;
    let cleared = world.cache.remove(CacheKey::Plot(plot)).remove(CacheKey::Trust(plot));
    assert(after.cache =~= cleared);
    assert(after.lookup(CacheKey::Plot(plot)) is None);
    lemma_get_plot_reads_database(after, plot, current);
    lemma_row_plot(after.db.row(plot), current);
    assert(after.db.plots =~= world.db.plots.insert(
        plot,
        PlotRecord { owner: world.db.plots[plot].owner, instance: after.db.plots[plot].instance },
    ));
}

/// A write that is refused, because the plot is taken, the plot is not
/// there, or no known instance has the key, leaves the database as it was.
pub proof fn lemma_refused_write_changes_nothing(
    world: World,
    plot: PlotId,
    owner: u128,
    key: Option<PublicKey>,
)
    requires
        world.tx is None,
    ensures
        register_plot(world, plot, owner, key).result matches Some(Ok(Err(_))) ==> register_plot(
            world,
            plot,
            owner,
            key,
        ).world.db == world.db,
        edit_plot(world, plot, key).result matches Some(Ok(Err(_))) ==> edit_plot(
            world,
            plot,
            key,
        ).world.db == world.db,
        register_plot(world, plot, owner, key).result is Some,
        edit_plot(world, plot, key).result is Some,
{
    reveal_with_fuel(run, 8);
}

/// Replacing the trust list of a plot that is there leaves the plot
/// trusting exactly the given plots, and the list's entry of the cache
/// removed. Replacing the list of a plot that is not there is refused, and
/// leaves the database and the cache as they were.
pub proof fn lemma_replace_trust(world: World, plot: PlotId, trusts: Vec<PlotId>)
    requires
        world.tx is None,
    ensures
        ({
            let done = set_plot_trust(world, plot, trusts);
            &&& world.db.plots.contains_key(plot) ==> {
                &&& done.result == Some(Ok::<Result<(), PlotTrustSetError>, StoreFault>(Ok(())))
                &&& done.world.db == world.db.with_trust(
                    world.db.trust.insert(plot, trusts@.to_set()),
                )
                &&& done.world.cache == world.cache.remove(CacheKey::Trust(plot))
                &&& done.world.tx is None
            }
            &&& !world.db.plots.contains_key(plot) ==> {
                &&& done.result == Some(
                    Ok::<Result<(), PlotTrustSetError>, StoreFault>(
                        Err(PlotTrustSetError::PlotNotFound),
                    ),
                )
                &&& done.world == world
            }
        }),
{
    reveal_with_fuel(run, 8);
    let done = set_plot_trust(world, plot, trusts);
    if world.db.plots.contains_key(plot) {
        let emptied = world.db.with_trust(world.db.trust.remove(plot));
        assert(emptied.trusted(plot).union(trusts@.to_set()) =~= trusts@.to_set());
        assert(emptied.trust.insert(plot, trusts@.to_set()) =~= world.db.trust.insert(
            plot,
            trusts@.to_set(),
        ));
    }
}

/// A replacement that breaks off inside its transaction, be it at the
/// commit, gives the transaction up: whatever it had deleted or inserted by
/// then, the database and the cache are as they were before it began.
pub proof fn lemma_broken_replace_rolls_back(world: World, state: TrustReplace, reply: Reply)
    requires
        world.tx is Some,
        state is Checking || state is Deleting || state is Inserting || state is Committing,
        !(reply is Done),
        !(reply is Present),
    ensures
        ({
            let step = state.step(reply);
            let ended = run(world, step, replace_resume(), 1);
            &&& ended.result == Some(
                Err::<Result<(), PlotTrustSetError>, StoreFault>(TrustReplace::fault_of(reply)),
            )
            &&& ended.world.db == world.db
            &&& ended.world.cache == world.cache
            &&& ended.world.tx is None
        }),
{
    reveal_with_fuel(run, 2);
}

/// None of the commands by which a plot is read or looked for touches a
/// trust list, in the database or in the cache.
pub proof fn lemma_lookup_keeps_trust(world: World, state: PlotExists, reply: Reply, plot: PlotId)
    ensures
        ({
            let step = state.step(reply);
            let command = match step {
                Step::Next(_, command) => Some(command),
                Step::Settled(_, command) => Some(command),
                Step::Done(_) => None,
            };
            command matches Some(c) ==> world.perform(c).0.db == world.db && world.perform(
                c,
            ).0.tx == world.tx && world.perform(c).0.lookup(CacheKey::Trust(plot)) == world.lookup(
                CacheKey::Trust(plot),
            )
        }),
{
}

/// An API key that the database does not know is remembered as none: the
/// first lookup asks the database once and leaves the sentinel in the
/// cache, and the next lookup of the same key answers from the cache,
/// without a statement to the database.
pub proof fn lemma_sentinel_caching(world: World, key: String, current: PublicKey)
    requires
        world.tx is None,
        world.lookup(CacheKey::of_api_key(key@)) is None,
        world.db.select_key(key@) is None,
    ensures
        ({
            let first = verify_key(world, key, current);
            let second = verify_key(first.world, key, current);
            &&& first.result == Some(Ok::<Option<Plot>, StoreFault>(None))
            &&& first.statements == 1
            &&& first.world.db == world.db
            &&& first.world.lookup(CacheKey::of_api_key(key@)) == Some(
                CacheValue::Plot(sentinel(current)),
            )
            &&& second.result == Some(Ok::<Option<Plot>, StoreFault>(None))
            &&& second.statements == 0
            &&& second.world == first.world
        }),
{
    reveal_with_fuel(run, 4);
}

/// An API key that the database knows is answered with its plot, and from
/// the cache the next time.
pub proof fn lemma_key_caching(world: World, key: String, current: PublicKey)
    requires
        world.tx is None,
        world.lookup(CacheKey::of_api_key(key@)) is None,
        world.db.select_key(key@) matches Some(row) && row_plot(row, current) is Ok && row.id
            >= 0,
    ensures
        ({
            let first = verify_key(world, key, current);
            let second = verify_key(first.world, key, current);
            let found = row_plot(world.db.select_key(key@)->0, current)->Ok_0;
            &&& first.result == Some(Ok::<Option<Plot>, StoreFault>(Some(found)))
            &&& first.statements == 1
            &&& second.result == first.result
            &&& second.statements == 0
        }),
{
    reveal_with_fuel(run, 4);
    lemma_row_plot(world.db.select_key(key@)->0, current);
}

/// Every plot entry of the cache is what the database says of its plot.
pub open spec fn cache_agrees(world: World, current: PublicKey) -> bool {
    forall|plot: PlotId| plot_cache_agrees(world, plot, current)
}

/// The operations of the plot directory keep the cache agreeing with the
/// database: reading any plot, registering any plot and assigning any plot
/// leave no plot entry behind that the database would not give.
pub proof fn lemma_cache_stays_agreeing(
    world: World,
    plot: PlotId,
    owner: u128,
    key: Option<PublicKey>,
    current: PublicKey,
)
    requires
        world.tx is None,
        cache_agrees(world, current),
    ensures
        cache_agrees(get_plot(world, plot, current).world, current),
        cache_agrees(register_plot(world, plot, owner, key).world, current),
        cache_agrees(edit_plot(world, plot, key).world, current),
{
    reveal_with_fuel(run, 9);
    let read = get_plot(world, plot, current).world;
    assert forall|other: PlotId| plot_cache_agrees(read, other, current) by {
        assert(plot_cache_agrees(world, other, current));
        lemma_get_plot_reads_database(world, plot, current);
    }
    let registered = register_plot(world, plot, owner, key).world;
    assert forall|other: PlotId| plot_cache_agrees(registered, other, current) by {
        assert(plot_cache_agrees(world, other, current));
        if other != plot && registered.db != world.db {
            assert(registered.db.plots.contains_key(other) == world.db.plots.contains_key(other));
            assert(registered.db.select_plot(other) == world.db.select_plot(other));
        }
    }
    let edited = edit_plot(world, plot, key).world;
    assert forall|other: PlotId| plot_cache_agrees(edited, other, current) by {
        assert(plot_cache_agrees(world, other, current));
        if other != plot && edited.db != world.db {
            assert(edited.db.plots.contains_key(other) == world.db.plots.contains_key(other));
            assert(edited.db.select_plot(other) == world.db.select_plot(other));
        }
    }
}

/// The plots among `targets` that the tables do not hold, in their order.
pub open spec fn missing_among(targets: Seq<PlotId>, tables: Tables) -> Seq<PlotId>
    decreases targets.len(),
{
    if targets.len() == 0 {
        Seq::empty()
    } else {
        let before = missing_among(targets.drop_last(), tables);
        if tables.plots.contains_key(targets.last()) {
            before
        } else {
            before.push(targets.last())
        }
    }
}

/// A plot is among the missing ones exactly if it is a target that the
/// tables do not hold.
pub proof fn lemma_missing_among(targets: Seq<PlotId>, tables: Tables)
    ensures
        forall|plot: PlotId|
            missing_among(targets, tables).contains(plot) <==> (targets.contains(plot)
                && !tables.plots.contains_key(plot)),
    decreases targets.len(),
{
    if targets.len() > 0 {
        let before = missing_among(targets.drop_last(), tables);
        let all = missing_among(targets, tables);
        let last = targets.last();
        lemma_missing_among(targets.drop_last(), tables);
        assert forall|plot: PlotId| all.contains(plot) implies targets.contains(plot)
            && !tables.plots.contains_key(plot) by {
            let k = choose|k: int| 0 <= k < all.len() && all[k] == plot;
            if k < before.len() {
                assert(before[k] == plot);
                assert(before.contains(plot));
                assert(targets.drop_last().contains(plot));
                let i = choose|i: int|
                    0 <= i < targets.drop_last().len() && targets.drop_last()[i] == plot;
                assert(targets[i] == plot);
            } else {
                assert(targets[targets.len() - 1] == plot);
            }
        }
        assert forall|plot: PlotId|
            targets.contains(plot) && !tables.plots.contains_key(plot) implies all.contains(
            plot,
        ) by {
            let i = choose|i: int| 0 <= i < targets.len() && targets[i] == plot;
            if i < targets.len() - 1 {
                assert(targets.drop_last()[i] == plot);
                assert(targets.drop_last().contains(plot));
                assert(before.contains(plot));
                let k = choose|k: int| 0 <= k < before.len() && before[k] == plot;
                assert(all[k] == plot);
            } else {
                assert(all[all.len() - 1] == plot);
            }
        }
    }
}

/// How a request to replace a trust list is resumed.
pub open spec fn set_trusted_resume() -> spec_fn(SetTrustedView, Reply) -> Step<
    SetTrustedView,
    Result<SetTrustedSeen, StoreFault>,
> {
    |s: SetTrustedView, reply: Reply| s.step(reply)
}

/// A request to replace a trust list in the world.
pub open spec fn set_trusted(
    world: World,
    plot: PlotId,
    trusted: Vec<PlotId>,
    current: PublicKey,
    fuel: nat,
) -> Outcome<Result<SetTrustedSeen, StoreFault>> {
    run(world, SetTrustedView::begin(plot, trusted, current), set_trusted_resume(), fuel)
}

/// The trust lists are as they were, in the database and in the cache.
pub open spec fn trust_untouched(before: World, after: World) -> bool {
    &&& after.db == before.db
    &&& after.tx == before.tx
    &&& forall|plot: PlotId|
        after.lookup(CacheKey::Trust(plot)) == before.lookup(CacheKey::Trust(plot))
}

proof fn lemma_checks_change_nothing(
    world: World,
    plot: PlotId,
    trusted: Vec<PlotId>,
    next: usize,
    missing: Seq<PlotId>,
    current: PublicKey,
    fuel: nat,
)
    requires
        world.tx is None,
        cache_agrees(world, current),
        next <= trusted@.len(),
        fuel >= 3 * (trusted@.len() - next) + 1,
        missing == missing_among(trusted@.take(next as int), world.db),
        missing_among(trusted@, world.db).len() > 0,
    ensures
        ({
            let out = run(
                world,
                SetTrustedView::advance(plot, trusted, next, missing, current),
                set_trusted_resume(),
                fuel,
            );
            &&& trust_untouched(world, out.world)
            &&& out.result is Some
            &&& out.result matches Some(Ok(seen)) ==> seen
                == SetTrustedSeen::OtherPlotNotRegistered(missing_among(trusted@, world.db))
        }),
    decreases trusted@.len() - next,
{
    reveal_with_fuel(run, 4);
    assert(trusted@.len() == trusted.len());
    if next >= trusted@.len() {
        assert(trusted@.take(next as int) =~= trusted@);
    } else {
        let target = trusted@[next as int];
        let upto = trusted@.take(next + 1);
        assert(upto.drop_last() =~= trusted@.take(next as int));
        assert(upto.last() == target);
        assert(plot_cache_agrees(world, target, current));
        match world.lookup(CacheKey::Plot(target)) {
            Some(_) => {
                lemma_checks_change_nothing(
                    world,
                    plot,
                    trusted,
                    (next + 1) as usize,
                    missing,
                    current,
                    (fuel - 1) as nat,
                );
            },
            None => {
                match world.db.select_plot(target) {
                    None => {
                        lemma_checks_change_nothing(
                            world,
                            plot,
                            trusted,
                            (next + 1) as usize,
                            missing.push(target),
                            current,
                            (fuel - 2) as nat,
                        );
                    },
                    Some(row) => {
                        match row_plot(row, current) {
                            Ok(found) => {
                                let filled = world.perform(
                                    Command::CacheSet(
                                        CacheKey::Plot(target),
                                        CacheValue::Plot(found),
                                    ),
                                ).0;
                                assert forall|other: PlotId| plot_cache_agrees(
                                    filled,
                                    other,
                                    current,
                                ) by {
                                    assert(plot_cache_agrees(world, other, current));
                                }
                                lemma_checks_change_nothing(
                                    filled,
                                    plot,
                                    trusted,
                                    (next + 1) as usize,
                                    missing,
                                    current,
                                    (fuel - 3) as nat,
                                );
                            },
                            Err(_) => {},
                        }
                    },
                }
            },
        }
    }
}

/// A request to replace a trust list that names a plot which is not
/// registered changes no trust list, in the database or in the cache, and
/// ends with the plots that are not registered or, where a stored instance
/// is none, with that fault.
pub proof fn lemma_unregistered_target_changes_nothing(
    world: World,
    plot: PlotId,
    trusted: Vec<PlotId>,
    current: PublicKey,
    fuel: nat,
)
    requires
        world.tx is None,
        cache_agrees(world, current),
        exists|i: int| 0 <= i < trusted@.len() && !world.db.plots.contains_key(trusted@[i]),
        fuel >= 3 * trusted@.len() + 1,
    ensures
        ({
            let out = set_trusted(world, plot, trusted, current, fuel);
            &&& trust_untouched(world, out.world)
            &&& out.result is Some
            &&& out.result matches Some(Ok(seen)) ==> seen
                == SetTrustedSeen::OtherPlotNotRegistered(missing_among(trusted@, world.db))
        }),
{
    let i = choose|i: int| 0 <= i < trusted@.len() && !world.db.plots.contains_key(trusted@[i]);
    lemma_missing_among(trusted@, world.db);
    assert(trusted@.contains(trusted@[i]));
    assert(missing_among(trusted@, world.db).contains(trusted@[i]));
    assert(trusted@.take(0) =~= Seq::<PlotId>::empty());
    lemma_checks_change_nothing(world, plot, trusted, 0, Seq::empty(), current, fuel);
}

/// A run that has ended ends the same with more fuel.
pub proof fn lemma_more_fuel<S, T>(
    world: World,
    step: Step<S, T>,
    resume: spec_fn(S, Reply) -> Step<S, T>,
    fuel: nat,
    more: nat,
)
    requires
        run(world, step, resume, fuel).result is Some,
        more >= fuel,
    ensures
        run(world, step, resume, more) == run(world, step, resume, fuel),
    decreases fuel,
{
    match step {
        Step::Next(state, command) => {
            if fuel > 0 {
                let (after, reply) = world.perform(command);
                lemma_more_fuel(
                    after,
                    resume(state, reply),
                    resume,
                    (fuel - 1) as nat,
                    (more - 1) as nat,
                );
            }
        },
        _ => {},
    }
}

/// The end of a request, as the end of the replacement that it makes.
pub open spec fn seen(
    outcome: Outcome<Result<Result<(), PlotTrustSetError>, StoreFault>>,
) -> Outcome<Result<SetTrustedSeen, StoreFault>> {
    Outcome {
        world: outcome.world,
        result: match outcome.result {
            Some(result) => Some(crate::api::baton::trusted_set(result)),
            None => None,
        },
        statements: outcome.statements,
    }
}

proof fn lemma_request_runs_the_replacement(
    world: World,
    step: Step<TrustReplace, Result<Result<(), PlotTrustSetError>, StoreFault>>,
    fuel: nat,
)
    ensures
        run(world, SetTrustedView::writing(step), set_trusted_resume(), fuel) == seen(
            run(world, step, replace_resume(), fuel),
        ),
    decreases fuel,
{
    match step {
        Step::Next(state, command) => {
            if fuel > 0 {
                let (after, reply) = world.perform(command);
                lemma_request_runs_the_replacement(after, state.step(reply), (fuel - 1) as nat);
            }
        },
        _ => {},
    }
}

/// What a request that reaches its replacement leaves behind.
pub open spec fn replaced_or_refused(
    world: World,
    out: Outcome<Result<SetTrustedSeen, StoreFault>>,
    plot: PlotId,
    trusted: Vec<PlotId>,
) -> bool {
    &&& out.world.tx is None
    &&& world.db.plots.contains_key(plot) ==> {
        &&& out.result == Some(Ok::<SetTrustedSeen, StoreFault>(SetTrustedSeen::Success))
        &&& out.world.db == world.db.with_trust(world.db.trust.insert(plot, trusted@.to_set()))
        &&& out.world.lookup(CacheKey::Trust(plot)) is None
        &&& forall|other: PlotId|
            other != plot ==> out.world.lookup(CacheKey::Trust(other)) == world.lookup(
                CacheKey::Trust(other),
            )
    }
    &&& !world.db.plots.contains_key(plot) ==> {
        &&& out.result == Some(Ok::<SetTrustedSeen, StoreFault>(SetTrustedSeen::PlotNotFound))
        &&& trust_untouched(world, out.world)
    }
}

proof fn lemma_replacement_in_a_request(
    world: World,
    plot: PlotId,
    trusted: Vec<PlotId>,
    fuel: nat,
)
    requires
        world.tx is None,
        fuel >= 7,
    ensures
        replaced_or_refused(
            world,
            run(
                world,
                SetTrustedView::writing(TrustReplace::begin(plot, trusted)),
                set_trusted_resume(),
                fuel,
            ),
            plot,
            trusted,
        ),
{
    lemma_replace_trust(world, plot, trusted);
    lemma_more_fuel(world, TrustReplace::begin(plot, trusted), replace_resume(), 7, fuel);
    lemma_request_runs_the_replacement(world, TrustReplace::begin(plot, trusted), fuel);
}

proof fn lemma_checks_reach_the_write(
    world: World,
    plot: PlotId,
    trusted: Vec<PlotId>,
    next: usize,
    current: PublicKey,
    fuel: nat,
)
    requires
        world.tx is None,
        cache_agrees(world, current),
        next <= trusted@.len(),
        fuel >= 3 * (trusted@.len() - next) + 7,
        forall|i: int|
            0 <= i < trusted@.len() ==> world.db.plots.contains_key(trusted@[i]) && row_plot(
                world.db.row(trusted@[i]),
                current,
            ) is Ok,
    ensures
        replaced_or_refused(
            world,
            run(
                world,
                SetTrustedView::advance(plot, trusted, next, Seq::empty(), current),
                set_trusted_resume(),
                fuel,
            ),
            plot,
            trusted,
        ),
    decreases trusted@.len() - next,
{
    assert(trusted@.len() == trusted.len());
    if next >= trusted@.len() {
        lemma_replacement_in_a_request(world, plot, trusted, fuel);
    } else {
        reveal_with_fuel(run, 4);
        let target = trusted@[next as int];
        assert(plot_cache_agrees(world, target, current));
        match world.lookup(CacheKey::Plot(target)) {
            Some(_) => {
                lemma_checks_reach_the_write(
                    world,
                    plot,
                    trusted,
                    (next + 1) as usize,
                    current,
                    (fuel - 1) as nat,
                );
            },
            None => {
                let row = world.db.select_plot(target)->0;
                let found = row_plot(row, current)->Ok_0;
                let filled = world.perform(
                    Command::CacheSet(CacheKey::Plot(target), CacheValue::Plot(found)),
                ).0;
                assert forall|other: PlotId| plot_cache_agrees(filled, other, current) by {
                    assert(plot_cache_agrees(world, other, current));
                }
                assert(forall|other: PlotId|
                    filled.lookup(CacheKey::Trust(other)) == world.lookup(CacheKey::Trust(other)));
                lemma_checks_reach_the_write(
                    filled,
                    plot,
                    trusted,
                    (next + 1) as usize,
                    current,
                    (fuel - 3) as nat,
                );
                let rest = run(
                    filled,
                    SetTrustedView::advance(
                        plot,
                        trusted,
                        (next + 1) as usize,
                        Seq::empty(),
                        current,
                    ),
                    set_trusted_resume(),
                    (fuel - 3) as nat,
                );
                let out = run(
                    world,
                    SetTrustedView::advance(plot, trusted, next, Seq::empty(), current),
                    set_trusted_resume(),
                    fuel,
                );
                assert(out.world == rest.world);
                assert(out.result == rest.result);
            },
        }
    }
}

/// A request to replace a trust list by plots that are all registered
/// replaces the list: the caller's plot then trusts exactly the given
/// plots, and the list's entry of the cache is removed. The trust lists of
/// other plots stay as they were. Where the caller's plot itself is not
/// there, the request is refused and no trust list changes.
pub proof fn lemma_registered_targets_replace_the_list(
    world: World,
    plot: PlotId,
    trusted: Vec<PlotId>,
    current: PublicKey,
    fuel: nat,
)
    requires
        world.tx is None,
        cache_agrees(world, current),
        fuel >= 3 * trusted@.len() + 7,
        forall|i: int|
            0 <= i < trusted@.len() ==> world.db.plots.contains_key(trusted@[i]) && row_plot(
                world.db.row(trusted@[i]),
                current,
            ) is Ok,
    ensures
        replaced_or_refused(
            world,
            set_trusted(world, plot, trusted, current, fuel),
            plot,
            trusted,
        ),
{
    lemma_checks_reach_the_write(world, plot, trusted, 0, current, fuel);
}

/// Asking whether a plot is registered, in the world.
pub open spec fn plot_exists(world: World, plot: PlotId, current: PublicKey) -> Outcome<
    Result<bool, StoreFault>,
> {
    run(world, PlotExists::begin(plot, current), |s: PlotExists, reply: Reply| s.step(reply), 2)
}

/// Asking whether a plot is registered gives what the database says:
/// yes exactly if the plot is there. Where the cache has an entry for the
/// plot the database is not asked; else it is asked once. Nothing but the
/// plot's entry of the cache changes.
pub proof fn lemma_plot_exists(world: World, plot: PlotId, current: PublicKey)
    requires
        world.tx is None,
        plot_cache_agrees(world, plot, current),
    ensures
        ({
            let asked = plot_exists(world, plot, current);
            &&& asked.result == Some(found_any(stored_plot(world.db, plot, current)))
            &&& asked.result matches Some(Ok(there)) ==> there == world.db.plots.contains_key(plot)
            &&& asked.world.db == world.db
            &&& asked.world.tx is None
            &&& plot_cache_agrees(asked.world, plot, current)
            &&& world.lookup(CacheKey::Plot(plot)) is Some ==> asked.statements == 0 && asked.world
                == world
            &&& world.lookup(CacheKey::Plot(plot)) is None ==> asked.statements == 1
            &&& forall|key: CacheKey|
                key != CacheKey::Plot(plot) ==> asked.world.lookup(key) == world.lookup(key)
        }),
{
    reveal_with_fuel(run, 3);
}

/// The trust list of a plot in the cache, if there is one, is a list of
/// the plots that the database says the plot trusts.
pub open spec fn trust_cache_agrees(world: World, plot: PlotId) -> bool {
    match world.lookup(CacheKey::Trust(plot)) {
        None => true,
        Some(value) => value is Trust && is_list_of(value->Trust_0, world.db.trusted(plot)),
    }
}

/// How the reading of a trust list is resumed.
pub open spec fn trust_resume() -> spec_fn(TrustLookupView, Reply) -> Step<
    TrustLookupView,
    Result<Seq<PlotId>, StoreFault>,
> {
    |s: TrustLookupView, reply: Reply| s.step(reply)
}

/// Reading the trust list of a plot in the world.
pub open spec fn fetch_plot_trust(world: World, plot: PlotId) -> Outcome<
    Result<Seq<PlotId>, StoreFault>,
> {
    run(world, TrustLookupView::begin(plot), trust_resume(), 3)
}

/// Reading a trust list gives the list in the cache where there is one,
/// without asking the database, and else the list that the database gives,
/// which is in the cache afterwards. Where the plots that the plot trusts
/// can be listed at all, the list read names each of them once and no
/// other plot.
pub proof fn lemma_fetch_plot_trust(world: World, plot: PlotId)
    requires
        world.tx is None,
        trust_cache_agrees(world, plot),
    ensures
        ({
            let read = fetch_plot_trust(world, plot);
            let again = fetch_plot_trust(read.world, plot);
            &&& read.world.db == world.db
            &&& read.world.tx is None
            &&& world.lookup(CacheKey::Trust(plot)) matches Some(CacheValue::Trust(list)) ==> {
                &&& read.result == Some(Ok::<Seq<PlotId>, StoreFault>(list@))
                &&& read.statements == 0
                &&& read.world == world
            }
            &&& world.lookup(CacheKey::Trust(plot)) is None ==> {
                &&& read.result == Some(
                    Ok::<Seq<PlotId>, StoreFault>(some_list(world.db.trusted(plot))@),
                )
                &&& read.statements == 1
                &&& read.world.lookup(CacheKey::Trust(plot)) == Some(
                    CacheValue::Trust(some_list(world.db.trusted(plot))),
                )
            }
            &&& again.result == read.result
            &&& again.statements == 0
            &&& (world.lookup(CacheKey::Trust(plot)) is Some || exists|list: TrustVec|
                is_list_of(list, world.db.trusted(plot))) ==> (read.result matches Some(Ok(list))
                && list.to_set() == world.db.trusted(plot) && list.no_duplicates()
                && trust_cache_agrees(read.world, plot))
        }),
{
    reveal_with_fuel(run, 4);
}

/// Once the trust list of a plot is replaced, the next reading asks the
/// database and gives a list of exactly the plots that were given, each of
/// them once, however often it was given (where such a list can be made).
pub proof fn lemma_replace_then_fetch(world: World, plot: PlotId, trusts: Vec<PlotId>)
    requires
        world.tx is None,
        world.db.plots.contains_key(plot),
    ensures
        ({
            let after = set_plot_trust(world, plot, trusts).world;
            let read = fetch_plot_trust(after, plot);
            &&& after.db.trusted(plot) == trusts@.to_set()
            &&& read.result == Some(Ok::<Seq<PlotId>, StoreFault>(some_list(trusts@.to_set())@))
            &&& read.statements == 1
            &&& (exists|list: TrustVec| is_list_of(list, trusts@.to_set())) ==> (
            read.result matches Some(Ok(list)) && list.to_set() == trusts@.to_set()
                && list.no_duplicates())
        }),
{
    lemma_replace_trust(world, plot, trusts);
    let after = set_plot_trust(world, plot, trusts).world;
    assert(after.lookup(CacheKey::Trust(plot)) is None);
    lemma_fetch_plot_trust(after, plot);
}

/// The account of a player in the cache, if there is one, is the account
/// that the account service knows for the player.
pub open spec fn account_cache_agrees(world: World, name: String) -> bool {
    match world.lookup(CacheKey::Player(name)) {
        None => true,
        Some(value) => value is Owner && world.accounts.contains_key(name@)
            && world.accounts[name@] == value->Owner_0,
    }
}

/// Looking up the account of a player in the world.
pub open spec fn get_uuid(world: World, name: String) -> Outcome<
    Result<Option<u128>, StoreFault>,
> {
    run(world, PlayerLookup::begin(name), |s: PlayerLookup, reply: Reply| s.step(reply), 3)
}

/// Looking up a player gives the account that the account service knows
/// for the name, or none where it knows none. An account that was found is
/// in the cache afterwards, and the next lookup answers from there; a name
/// without an account leaves the cache as it was. The database is never
/// asked, and nothing else changes.
pub proof fn lemma_get_uuid(world: World, name: String)
    requires
        account_cache_agrees(world, name),
    ensures
        ({
            let found = get_uuid(world, name);
            let again = get_uuid(found.world, name);
            let known = if world.accounts.contains_key(name@) {
                Some(world.accounts[name@])
            } else {
                None
            };
            &&& found.result == Some(Ok::<Option<u128>, StoreFault>(known))
            &&& found.statements == 0
            &&& found.world.db == world.db
            &&& found.world.tx == world.tx
            &&& found.world.accounts == world.accounts
            &&& known matches Some(owner) ==> found.world.lookup(CacheKey::Player(name)) == Some(
                CacheValue::Owner(owner),
            )
            &&& known is None ==> found.world == world
            &&& forall|key: CacheKey|
                key != CacheKey::Player(name) ==> found.world.lookup(key) == world.lookup(key)
            &&& again.result == found.result
            &&& known is Some ==> again.world == found.world
        }),
{
    reveal_with_fuel(run, 4);
    let found = get_uuid(world, name);
    if world.accounts.contains_key(name@) && world.lookup(CacheKey::Player(name)) is Some {
        assert(found.world == world);
    }
    if world.accounts.contains_key(name@) {
        let owner = world.accounts[name@];
        let again = get_uuid(found.world, name);
        assert(found.world.lookup(CacheKey::Player(name)) == Some(CacheValue::Owner(owner)));
        assert(again.world.cache =~= found.world.cache);
    }
}

/// How the disabling of keys is resumed.
pub open spec fn purge_resume() -> spec_fn(KeyPurge, Reply) -> Step<KeyPurge, Result<(), StoreFault>> {
    |s: KeyPurge, reply: Reply| s.step(reply)
}

/// Disabling the API keys of a plot in the world.
pub open spec fn disable_all_keys(world: World, plot: PlotId, fuel: nat) -> Outcome<
    Result<(), StoreFault>,
> {
    run(world, KeyPurge::begin(plot), purge_resume(), fuel)
}

proof fn lemma_purge_clears(world: World, hashes: Vec<Vec<u8>>, next: usize, fuel: nat)
    requires
        next <= hashes@.len(),
        fuel >= hashes@.len() - next,
        forall|i: int| 0 <= i < hashes@.len() ==> (#[trigger] hashes@[i])@.len() == 32,
    ensures
        ({
            let out = run(world, KeyPurge::clear_from(hashes, next), purge_resume(), fuel);
            &&& out.result == Some(Ok::<(), StoreFault>(()))
            &&& out.world.db == world.db
            &&& out.world.tx == world.tx
            &&& out.world.accounts == world.accounts
            &&& forall|i: int|
                next <= i < hashes@.len() ==> out.world.lookup(
                    CacheKey::ApiKey(array32_of((#[trigger] hashes@[i])@)),
                ) is None
            &&& forall|key: CacheKey|
                out.world.lookup(key) is None || out.world.lookup(key) == world.lookup(key)
            &&& forall|key: CacheKey| !(key is ApiKey) ==> out.world.lookup(key) == world.lookup(key)
        }),
    decreases hashes@.len() - next,
{
    reveal_with_fuel(run, 2);
    assert(hashes@.len() == hashes.len());
    if next < hashes@.len() {
        let entry = CacheKey::ApiKey(array32_of(hashes@[next as int]@));
        let cleared = world.perform(Command::CacheDel(entry)).0;
        lemma_purge_clears(cleared, hashes, (next + 1) as usize, (fuel - 1) as nat);
        let rest = run(
            cleared,
            KeyPurge::clear_from(hashes, (next + 1) as usize),
            purge_resume(),
            (fuel - 1) as nat,
        );
        let out = run(world, KeyPurge::clear_from(hashes, next), purge_resume(), fuel);
        assert(out.world == rest.world);
        assert(out.result == rest.result);
        assert(cleared.lookup(entry) is None);
        assert forall|key: CacheKey|
            out.world.lookup(key) is None || out.world.lookup(key) == world.lookup(key) by {
            assert(rest.world.lookup(key) is None || rest.world.lookup(key) == cleared.lookup(key));
        }
        assert forall|i: int| next <= i < hashes@.len() implies out.world.lookup(
            CacheKey::ApiKey(array32_of((#[trigger] hashes@[i])@)),
        ) is None by {
            if i == next {
                assert(rest.world.lookup(entry) is None || rest.world.lookup(entry)
                    == cleared.lookup(entry));
            }
        }
        assert forall|key: CacheKey| !(key is ApiKey) implies out.world.lookup(key)
            == world.lookup(key) by {
            assert(rest.world.lookup(key) == cleared.lookup(key));
            assert(cleared.lookup(key) == world.lookup(key));
        }
    }
}

/// Once the keys of a plot are disabled, every key is still there, those
/// of the plot are disabled and give no plot any more, and the others are
/// as they were.
pub proof fn lemma_disabled_keys(tables: Tables, plot: PlotId)
    ensures
        ({
            let after = tables.with_keys(tables.disabled_keys(plot));
            &&& after.keys.dom() == tables.keys.dom()
            &&& forall|k: Seq<char>| #[trigger]
                tables.keys.contains_key(k) ==> {
                    &&& tables.keys[k].plot == plot ==> after.keys[k] == (KeyRecord {
                        plot,
                        disabled: true,
                    }) && after.select_key(k) is None
                    &&& tables.keys[k].plot != plot ==> after.keys[k] == tables.keys[k]
                        && after.select_key(k) == tables.select_key(k)
                }
        }),
{
    let after = tables.with_keys(tables.disabled_keys(plot));
    assert(after.keys.dom() =~= tables.keys.dom());
}

/// Disabling the API keys of a plot leaves every key of the plot
/// disabled and none deleted, and the keys of other plots as they were
/// (see `lemma_disabled_keys`); nothing else in the database changes. The
/// cache loses nothing but entries of API keys, and loses the entry of each
/// key that was disabled, so that a lookup of such a key afterwards finds
/// none. (This holds where the digests of the plot's keys can be listed at
/// all.)
pub proof fn lemma_disable_all_keys(
    world: World,
    plot: PlotId,
    key: String,
    current: PublicKey,
    fuel: nat,
)
    requires
        world.tx is None,
        exists|hashes: Vec<Vec<u8>>| are_digests_of(hashes, world.db, plot),
        fuel >= some_digests(world.db, plot)@.len() + 1,
    ensures
        ({
            let out = disable_all_keys(world, plot, fuel);
            &&& out.result == Some(Ok::<(), StoreFault>(()))
            &&& out.world.tx is None
            &&& out.world.db == world.db.with_keys(world.db.disabled_keys(plot))
            &&& forall|entry: CacheKey|
                !(entry is ApiKey) ==> out.world.lookup(entry) == world.lookup(entry)
            &&& forall|entry: CacheKey|
                out.world.lookup(entry) is None || out.world.lookup(entry) == world.lookup(entry)
            &&& world.db.is_active_key(plot, key@) ==> {
                &&& out.world.db.select_key(key@) is None
                &&& out.world.lookup(CacheKey::of_api_key(key@)) is None
                &&& verify_key(out.world, key, current).result == Some(
                    Ok::<Option<Plot>, StoreFault>(None),
                )
            }
        }),
{
    reveal_with_fuel(run, 2);
    let hashes = some_digests(world.db, plot);
    assert(are_digests_of(hashes, world.db, plot));
    let disabled = world.perform(Command::DisableKeys(plot)).0;
    lemma_purge_clears(disabled, hashes, 0, (fuel - 1) as nat);
    let rest = run(disabled, KeyPurge::clear_from(hashes, 0), purge_resume(), (fuel - 1) as nat);
    let out = disable_all_keys(world, plot, fuel);
    assert(out.world == rest.world);
    assert(out.result == rest.result);
    assert(forall|entry: CacheKey| disabled.lookup(entry) == world.lookup(entry));
    if world.db.is_active_key(plot, key@) {
        lemma_disabled_keys(world.db, plot);
        assert(world.db.keys.contains_key(key@));
        let i = choose|i: int| 0 <= i < hashes@.len() && (#[trigger] hashes@[i])@ == key_digest(key@);
        assert(CacheKey::of_api_key(key@) == CacheKey::ApiKey(array32_of(hashes@[i]@)));
        assert(out.world.lookup(CacheKey::of_api_key(key@)) is None);
        lemma_sentinel_caching(out.world, key, current);
    }
}

/// A stored row of an API key whose plot number is below zero is a fault
/// on the first lookup already, and nothing is put into the cache for it.
pub proof fn lemma_negative_key_row(world: World, key: String, current: PublicKey)
    requires
        world.tx is None,
        world.lookup(CacheKey::of_api_key(key@)) is None,
        world.db.select_key(key@) matches Some(row) && row_plot(row, current) is Ok && row.id < 0,
    ensures
        verify_key(world, key, current).result == Some(
            Err::<Option<Plot>, StoreFault>(StoreFault::NegativePlot),
        ),
        verify_key(world, key, current).world == world,
{
    reveal_with_fuel(run, 4);
    lemma_row_plot(world.db.select_key(key@)->0, current);
}

/// A number below zero is never written as a plot: registering or
/// assigning it is a fault, and leaves the world as it was.
pub proof fn lemma_negative_plot_is_not_written(
    world: World,
    plot: PlotId,
    owner: u128,
    key: Option<PublicKey>,
)
    requires
        plot < 0,
    ensures
        register_plot(world, plot, owner, key).result == Some(
            Err::<Result<(), RegisterError>, StoreFault>(StoreFault::NegativePlot),
        ),
        register_plot(world, plot, owner, key).world == world,
        edit_plot(world, plot, key).result == Some(
            Err::<Result<(), PlotEditError>, StoreFault>(StoreFault::NegativePlot),
        ),
        edit_plot(world, plot, key).world == world,
{
    reveal_with_fuel(run, 2);
}

} // verus!
