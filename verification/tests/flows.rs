use ed25519_dalek::SigningKey;
use plotfed::api::baton::{BatonApi, SetTrustedResult, TransferSendResult};
use plotfed::api::instance::{
    InstanceApi, PlotFetchResult, RegisterResult, ReplaceInstanceResult,
};
use plotfed::auth::{
    Auth, Authentication, ExternalServer, ExternalServerAuth, KeyAuth, KeyAuthError, KeyCheck,
    PeerAddr, Plot, PlotAuth, PlotAuthError, PlotCheck, UnregisteredAuth, UnregisteredPlot,
};
use plotfed::instance::{
    ExternalDomain, Instance, InstanceDomain, InstanceError, SendInstance,
};
use plotfed::keys::{KeyFormatError, PublicKey};
use plotfed::store::baton::PlotTrustSetError;
use plotfed::store::instance::{
    resolve_row, PlotEditError, PlotLookup, RegisterError, WriteKind, WritePhase,
};
use plotfed::store::keys::{KeyIssue, API_KEY_LENGTH, SENTINEL_PLOT};
use plotfed::store::players::{owner_cache_text, owner_of_cache_text, profile_url};
use plotfed::store::{
    CacheKey, CacheValue, Command, PlotRow, Reply, Step, Store, StoreFault, TrustVec,
};
use sha2::Digest;
use std::collections::{BTreeMap, BTreeSet, HashMap};

#[derive(Clone, Default, PartialEq, Debug)]
struct Tables {
    plots: BTreeMap<i32, (u128, Option<i32>)>,
    instances: BTreeMap<i32, (Vec<u8>, String)>,
    trust: BTreeMap<i32, BTreeSet<i32>>,
    keys: BTreeMap<String, (i32, bool)>,
}

impl Tables {
    fn row(&self, plot: i32) -> Option<PlotRow> {
        let (owner, instance) = self.plots.get(&plot)?;
        let joined = instance.and_then(|id| self.instances.get(&id));
        Some(PlotRow {
            id: plot,
            owner_uuid: *owner,
            public_key: joined.map(|i| i.0.clone()),
            domain: joined.map(|i| i.1.clone()),
        })
    }
}

/// A host that keeps the database and the cache in memory and counts what
/// it is asked.
#[derive(Default)]
struct Host {
    db: Tables,
    tx: Option<Tables>,
    cache: HashMap<String, CacheValue>,
    players: HashMap<String, u128>,
    log: Vec<Command>,
    statements: usize,
    fail_on: Option<usize>,
}

impl Host {
    fn active(&mut self) -> &mut Tables {
        match self.tx.as_mut() {
            Some(t) => t,
            None => &mut self.db,
        }
    }

    fn perform(&mut self, command: Command) -> Reply {
        self.log.push(command.clone());
        if self.fail_on == Some(self.log.len()) {
            return Reply::Failed;
        }
        match command {
            Command::CacheGet(key) => Reply::Cached(self.cache.get(&key.render()).cloned()),
            Command::CacheSet(key, value) => {
                self.cache.insert(key.render(), value);
                Reply::Done
            }
            Command::CacheDel(key) => {
                self.cache.remove(&key.render());
                Reply::Done
            }
            Command::Begin => {
                self.statements += 1;
                self.tx = Some(self.db.clone());
                Reply::Done
            }
            Command::Commit => {
                self.statements += 1;
                match self.tx.take() {
                    Some(t) => {
                        self.db = t;
                        Reply::Done
                    }
                    None => Reply::Failed,
                }
            }
            Command::Rollback => {
                self.statements += 1;
                self.tx = None;
                Reply::Done
            }
            Command::FindInstance(key) => {
                self.statements += 1;
                let found = self
                    .active()
                    .instances
                    .iter()
                    .find(|(_, i)| i.0 == key.bytes.to_vec())
                    .map(|(id, _)| *id);
                Reply::InstanceId(found)
            }
            Command::InsertPlot { plot, owner, instance } => {
                self.statements += 1;
                if self.active().plots.contains_key(&plot) {
                    Reply::Conflict
                } else {
                    self.active().plots.insert(plot, (owner, instance));
                    Reply::Done
                }
            }
            Command::UpdatePlot { plot, instance } => {
                self.statements += 1;
                match self.active().plots.get_mut(&plot) {
                    Some(record) => {
                        record.1 = instance;
                        Reply::Affected(1)
                    }
                    None => Reply::Affected(0),
                }
            }
            Command::SelectPlot(plot) => {
                self.statements += 1;
                Reply::Row(self.db.row(plot))
            }
            Command::PlotPresent(plot) => {
                self.statements += 1;
                Reply::Present(self.active().plots.contains_key(&plot))
            }
            Command::DeleteTrust(plot) => {
                self.statements += 1;
                self.active().trust.remove(&plot);
                Reply::Done
            }
            Command::InsertTrust(plot, list) => {
                self.statements += 1;
                let entry = self.active().trust.entry(plot).or_default();
                for t in list.0 {
                    entry.insert(t);
                }
                Reply::Done
            }
            Command::SelectTrust(plot) => {
                self.statements += 1;
                let list = self.db.trust.get(&plot).cloned().unwrap_or_default();
                Reply::Trust(TrustVec(list.into_iter().collect()))
            }
            Command::SelectKey(key) => {
                self.statements += 1;
                let found = match self.db.keys.get(&key) {
                    Some((plot, false)) => self.db.row(*plot),
                    _ => None,
                };
                Reply::Row(found)
            }
            Command::InsertKey(plot, key) => {
                self.statements += 1;
                self.active().keys.insert(key, (plot, false));
                Reply::Done
            }
            Command::DisableKeys(plot) => {
                self.statements += 1;
                let mut hashes = Vec::new();
                for (key, record) in self.active().keys.iter_mut() {
                    if record.0 == plot && !record.1 {
                        record.1 = true;
                        hashes.push(sha2::Sha256::digest(key.as_bytes()).to_vec());
                    }
                }
                Reply::Hashes(hashes)
            }
            Command::ResolvePlayer(name) => Reply::Player(self.players.get(&name).copied()),
            Command::AskSignature { .. } => Reply::Failed,
        }
    }

    /// Performs what an operation asks for until it is over.
    fn run<S, T>(&mut self, first: Step<S, T>, resume: impl Fn(S, Reply) -> Step<S, T>) -> T {
        let mut step = first;
        loop {
            match step {
                Step::Next(state, command) => {
                    let reply = self.perform(command);
                    step = resume(state, reply);
                }
                Step::Done(result) => return result,
                Step::Settled(result, command) => {
                    let _ = self.perform(command);
                    return result;
                }
            }
        }
    }

    fn get_plot(&mut self, store: &Store, plot: i32) -> Result<Option<Plot>, StoreFault> {
        self.run(store.get_plot(plot), |s, r| s.resume(r))
    }

    fn plot_exists(&mut self, store: &Store, plot: i32) -> Result<bool, StoreFault> {
        self.run(store.plot_exists(plot), |s, r| s.resume(r))
    }

    fn register(
        &mut self,
        store: &Store,
        plot: i32,
        owner: u128,
        key: Option<PublicKey>,
    ) -> Result<Result<(), RegisterError>, StoreFault> {
        self.run(store.register_plot(plot, owner, key), |s, r| s.resume(r))
    }

    fn edit(
        &mut self,
        store: &Store,
        plot: i32,
        key: Option<PublicKey>,
    ) -> Result<Result<(), PlotEditError>, StoreFault> {
        self.run(store.edit_plot(plot, key), |s, r| s.resume(r))
    }

    fn fetch_trust(&mut self, store: &Store, plot: i32) -> Result<Vec<i32>, StoreFault> {
        self.run(store.fetch_plot_trust(plot), |s, r| s.resume(r))
    }

    fn set_trust(
        &mut self,
        store: &Store,
        plot: i32,
        trusts: Vec<i32>,
    ) -> Result<Result<(), PlotTrustSetError>, StoreFault> {
        self.run(store.set_plot_trust(plot, trusts), |s, r| s.resume(r))
    }

    fn verify_key(&mut self, store: &Store, key: &str) -> Result<Option<Plot>, StoreFault> {
        self.run(store.verify_key(key.to_string()), |s, r| s.resume(r))
    }
}

fn store() -> Store {
    Store::new([11; 32])
}

fn peer_key(seed: u8) -> PublicKey {
    PublicKey::from_bytes(&SigningKey::from_bytes(&[seed; 32]).verifying_key().to_bytes()).unwrap()
}

fn external(name: &str) -> InstanceDomain {
    InstanceDomain::External(ExternalDomain::convert(name.to_string()).unwrap())
}

/// A host that knows one other instance, and the plots 1 (here) and 2 (there).
fn world() -> Host {
    let mut host = Host::default();
    host.db.instances.insert(40, (peer_key(1).bytes.to_vec(), "peer.example".to_string()));
    host.db.plots.insert(1, (100, None));
    host.db.plots.insert(2, (200, Some(40)));
    host.db.keys.insert("good-key".to_string(), (2, false));
    host.db.keys.insert("old-key".to_string(), (2, true));
    host.players.insert("DynamicCake".to_string(), 0x550e8400e29b41d4a716446655440000);
    host
}

fn plot_here(id: i32, owner: u128) -> Plot {
    Plot { plot_id: id, owner, instance: store().construct_current_instance() }
}

fn plot_there(id: i32, owner: u128) -> Plot {
    Plot {
        plot_id: id,
        owner,
        instance: Instance { key: peer_key(1), domain: external("peer.example") },
    }
}

#[test]
fn store_knows_its_own_key() {
    let theirs = SigningKey::from_bytes(&[11; 32]).verifying_key().to_bytes();
    assert_eq!(store().public_key().bytes, theirs);
    assert_ne!(store().public_key().bytes, [11; 32]);
    assert_eq!(
        store().construct_current_instance(),
        Instance { key: PublicKey { bytes: theirs }, domain: InstanceDomain::Current }
    );
}

#[test]
fn cache_entries_have_their_names() {
    assert_eq!(CacheKey::Plot(42).render(), "plot:42");
    assert_eq!(CacheKey::Plot(0).render(), "plot:0");
    assert_eq!(CacheKey::Plot(-1).render(), "plot:-1");
    assert_eq!(CacheKey::Plot(i32::MAX).render(), "plot:2147483647");
    assert_eq!(CacheKey::Plot(i32::MIN).render(), "plot:-2147483648");
    assert_eq!(CacheKey::Plot(1000).render(), "plot:1000");
    assert_eq!(CacheKey::Trust(42).render(), "plot:42:baton_trust");
    assert_eq!(CacheKey::Player("Notch".to_string()).render(), "player:Notch:uuid");
    assert_eq!(
        CacheKey::for_api_key("abc").render(),
        "key:ungWv48Bz-pBQUDeXa4iI7ADYaOWF3qctBD_YfIAFa0="
    );
    assert_eq!(
        CacheKey::for_api_key("").render(),
        "key:47DEQpj8HBSa-_TImW-5JCeuQeRkm5NMpJWZG3hSuFU="
    );
    assert_eq!(CacheKey::for_api_key("abc").clone(), CacheKey::for_api_key("abc"));
}

#[test]
fn stored_row_becomes_a_plot() {
    let here = PlotRow { id: 1, owner_uuid: 100, public_key: None, domain: None };
    assert_eq!(resolve_row(here, store().public_key()), Ok(plot_here(1, 100)));
    let there = PlotRow {
        id: 2,
        owner_uuid: 200,
        public_key: Some(peer_key(1).bytes.to_vec()),
        domain: Some("peer.example".to_string()),
    };
    assert_eq!(resolve_row(there, store().public_key()), Ok(plot_there(2, 200)));
    let broken = PlotRow {
        id: 2,
        owner_uuid: 200,
        public_key: Some(vec![1, 2]),
        domain: Some("peer.example".to_string()),
    };
    assert_eq!(
        resolve_row(broken, store().public_key()),
        Err(StoreFault::Instance(InstanceError::Key(KeyFormatError::Length)))
    );
    let named = PlotRow {
        id: 2,
        owner_uuid: 200,
        public_key: Some(peer_key(1).bytes.to_vec()),
        domain: Some("no domain".to_string()),
    };
    assert_eq!(
        resolve_row(named, store().public_key()),
        Err(StoreFault::Instance(InstanceError::Domain))
    );
}

#[test]
fn reading_a_plot_fills_the_cache() {
    let mut host = world();
    assert_eq!(host.get_plot(&store(), 1), Ok(Some(plot_here(1, 100))));
    assert_eq!(host.statements, 1);
    assert_eq!(host.cache.get("plot:1"), Some(&CacheValue::Plot(plot_here(1, 100))));
    assert_eq!(host.get_plot(&store(), 1), Ok(Some(plot_here(1, 100))));
    assert_eq!(host.statements, 1);
    assert_eq!(host.get_plot(&store(), 2), Ok(Some(plot_there(2, 200))));
    assert_eq!(host.statements, 2);
}

#[test]
fn reading_a_plot_that_is_not_there_caches_nothing() {
    let mut host = world();
    assert_eq!(host.get_plot(&store(), 3), Ok(None));
    assert!(host.cache.is_empty());
    assert_eq!(host.get_plot(&store(), 3), Ok(None));
    assert_eq!(host.statements, 2);
}

#[test]
fn reading_a_plot_asks_in_order() {
    let mut host = world();
    host.get_plot(&store(), 2).unwrap();
    assert_eq!(
        host.log,
        vec![
            Command::CacheGet(CacheKey::Plot(2)),
            Command::SelectPlot(2),
            Command::CacheSet(CacheKey::Plot(2), CacheValue::Plot(plot_there(2, 200))),
        ]
    );
}

#[test]
fn failed_population_does_not_fail_the_reading() {
    let mut host = world();
    host.fail_on = Some(3);
    assert_eq!(host.get_plot(&store(), 1), Ok(Some(plot_here(1, 100))));
    assert!(host.cache.is_empty());
}

#[test]
fn failed_reading_is_a_fault() {
    let mut host = world();
    host.fail_on = Some(1);
    assert_eq!(host.get_plot(&store(), 1), Err(StoreFault::Backend));
    let mut host = world();
    host.fail_on = Some(2);
    assert_eq!(host.get_plot(&store(), 1), Err(StoreFault::Backend));
    assert!(host.cache.is_empty());
}

#[test]
fn reply_of_another_kind_is_a_fault() {
    let state = PlotLookup::AwaitCache { plot: 1, current: store().public_key() };
    assert_eq!(state.resume(Reply::Done), Step::Done(Err(StoreFault::Protocol)));
    assert_eq!(
        state.resume(Reply::Cached(Some(CacheValue::Owner(3)))),
        Step::Done(Err(StoreFault::Protocol))
    );
    let state = PlotLookup::AwaitRow { plot: 1, current: store().public_key() };
    assert_eq!(state.resume(Reply::Cached(None)), Step::Done(Err(StoreFault::Protocol)));
}

#[test]
fn racing_readers_write_the_same_entry() {
    let host = world();
    let current = store().public_key();
    let a = store().get_plot(2);
    let b = store().get_plot(2);
    let (a, b) = match (a, b) {
        (Step::Next(a, ca), Step::Next(b, cb)) => {
            assert_eq!(ca, Command::CacheGet(CacheKey::Plot(2)));
            assert_eq!(cb, ca);
            (a, b)
        }
        _ => panic!("a reading begins at the cache"),
    };
    let a = a.resume(Reply::Cached(None));
    let b = b.resume(Reply::Cached(None));
    let (a, b) = match (a, b) {
        (Step::Next(a, _), Step::Next(b, _)) => (a, b),
        _ => panic!("a miss goes to the database"),
    };
    let a = a.resume(Reply::Row(host.db.row(2)));
    let b = b.resume(Reply::Row(host.db.row(2)));
    assert_eq!(a, b);
    let (result, write) = match a {
        Step::Settled(result, write) => (result, write),
        _ => panic!("the row settles the reading"),
    };
    assert_eq!(result, Ok(Some(plot_there(2, 200))));
    assert_eq!(result, resolve_row(host.db.row(2).unwrap(), current).map(Some));
    let mut first = world();
    first.perform(write.clone());
    let mut both = world();
    both.perform(write.clone());
    both.perform(write);
    assert_eq!(first.cache, both.cache);
    assert_eq!(both.get_plot(&store(), 2), result);
    assert_eq!(both.statements, 0);
}

#[test]
fn any_entry_says_a_plot_exists() {
    let mut host = world();
    assert_eq!(host.plot_exists(&store(), 1), Ok(true));
    assert_eq!(host.statements, 1);
    assert_eq!(host.plot_exists(&store(), 1), Ok(true));
    assert_eq!(host.statements, 1);
    assert_eq!(host.plot_exists(&store(), 9), Ok(false));
    assert_eq!(host.statements, 2);
    host.cache.insert("plot:9".to_string(), CacheValue::Owner(1));
    assert_eq!(host.plot_exists(&store(), 9), Ok(true));
    assert_eq!(host.statements, 2);
    host.fail_on = Some(host.log.len() + 1);
    assert_eq!(host.plot_exists(&store(), 1), Err(StoreFault::Backend));
}

#[test]
fn registering_writes_the_plot() {
    let mut host = world();
    assert_eq!(host.register(&store(), 5, 500, None), Ok(Ok(())));
    assert_eq!(host.db.plots.get(&5), Some(&(500, None)));
    assert_eq!(host.tx, None);
    assert_eq!(host.register(&store(), 6, 600, Some(peer_key(1))), Ok(Ok(())));
    assert_eq!(host.db.plots.get(&6), Some(&(600, Some(40))));
    assert_eq!(host.get_plot(&store(), 5), Ok(Some(plot_here(5, 500))));
    assert_eq!(host.get_plot(&store(), 6), Ok(Some(plot_there(6, 600))));
}

#[test]
fn registering_clears_the_cache_before_it_writes() {
    let mut host = world();
    host.register(&store(), 5, 500, Some(peer_key(1))).unwrap().unwrap();
    assert_eq!(
        host.log,
        vec![
            Command::CacheDel(CacheKey::Plot(5)),
            Command::CacheDel(CacheKey::Trust(5)),
            Command::Begin,
            Command::FindInstance(peer_key(1)),
            Command::InsertPlot { plot: 5, owner: 500, instance: Some(40) },
            Command::Commit,
        ]
    );
}

#[test]
fn number_below_zero_is_never_written_as_a_plot() {
    let mut host = world();
    let before = host.db.clone();
    assert_eq!(store().register_plot(-1, 5, None), Step::Done(Err(StoreFault::NegativePlot)));
    assert_eq!(host.register(&store(), -1, 5, None), Err(StoreFault::NegativePlot));
    assert_eq!(host.register(&store(), i32::MIN, 5, Some(peer_key(1))), Err(StoreFault::NegativePlot));
    assert_eq!(host.edit(&store(), -7, None), Err(StoreFault::NegativePlot));
    assert_eq!(host.db, before);
    assert!(host.log.is_empty());
    assert_eq!(host.register(&store(), 0, 5, None), Ok(Ok(())));
    assert_eq!(host.db.plots.get(&0), Some(&(5, None)));
}

#[test]
fn registering_a_taken_plot_is_refused() {
    let mut host = world();
    let before = host.db.clone();
    assert_eq!(host.register(&store(), 1, 999, None), Ok(Err(RegisterError::PlotTaken)));
    assert_eq!(host.db, before);
    assert_eq!(host.tx, None);
    assert_eq!(host.log.last(), Some(&Command::Rollback));
}

#[test]
fn registering_on_an_unknown_instance_is_refused() {
    let mut host = world();
    let before = host.db.clone();
    assert_eq!(
        host.register(&store(), 5, 500, Some(peer_key(2))),
        Ok(Err(RegisterError::InstanceNotFound))
    );
    assert_eq!(host.db, before);
    assert_eq!(host.tx, None);
    assert!(!host.log.iter().any(|c| matches!(c, Command::InsertPlot { .. })));
}

#[test]
fn reading_after_a_write_never_gives_the_old_value() {
    let mut host = world();
    assert_eq!(host.get_plot(&store(), 1), Ok(Some(plot_here(1, 100))));
    host.cache.insert("plot:1:baton_trust".to_string(), CacheValue::Trust(TrustVec(vec![2])));
    assert_eq!(host.edit(&store(), 1, Some(peer_key(1))), Ok(Ok(())));
    assert_eq!(host.cache.get("plot:1"), None);
    assert_eq!(host.cache.get("plot:1:baton_trust"), None);
    assert_eq!(host.get_plot(&store(), 1), Ok(Some(plot_there(1, 100))));
    assert_eq!(host.edit(&store(), 1, None), Ok(Ok(())));
    assert_eq!(host.get_plot(&store(), 1), Ok(Some(plot_here(1, 100))));
    host.cache.insert("plot:7".to_string(), CacheValue::Plot(plot_here(7, 1)));
    assert_eq!(host.register(&store(), 7, 700, None), Ok(Ok(())));
    assert_eq!(host.get_plot(&store(), 7), Ok(Some(plot_here(7, 700))));
}

#[test]
fn editing_asks_in_order() {
    let mut host = world();
    host.edit(&store(), 2, None).unwrap().unwrap();
    assert_eq!(
        host.log,
        vec![
            Command::CacheDel(CacheKey::Plot(2)),
            Command::CacheDel(CacheKey::Trust(2)),
            Command::Begin,
            Command::UpdatePlot { plot: 2, instance: None },
            Command::Commit,
        ]
    );
    assert_eq!(host.db.plots.get(&2), Some(&(200, None)));
}

#[test]
fn editing_is_refused_for_a_missing_plot_or_instance() {
    let mut host = world();
    let before = host.db.clone();
    assert_eq!(host.edit(&store(), 9, None), Ok(Err(PlotEditError::PlotNotFound)));
    assert_eq!(host.edit(&store(), 1, Some(peer_key(3))), Ok(Err(PlotEditError::InstanceNotFound)));
    assert_eq!(host.db, before);
    assert_eq!(host.tx, None);
}

#[test]
fn broken_write_gives_up_its_transaction() {
    for at in 1..=6 {
        let mut host = world();
        let before = host.db.clone();
        host.fail_on = Some(at);
        assert_eq!(
            host.register(&store(), 5, 500, Some(peer_key(1))),
            Err(StoreFault::Backend),
            "{}",
            at
        );
        assert_eq!(host.tx, None);
        assert_eq!(host.db, before);
        if at >= 4 {
            assert_eq!(host.log.last(), Some(&Command::Rollback));
        }
    }
}

#[test]
fn write_has_its_phases() {
    let write = match store().register_plot(5, 500, None) {
        Step::Next(state, _) => state.write,
        _ => panic!("a registration begins at the cache"),
    };
    assert_eq!(write.kind, WriteKind::Register { owner: 500 });
    assert_eq!(write.phase, WritePhase::ClearPlot);
    assert_eq!(write.plot, 5);
    assert_eq!(write.key, None);
    assert_eq!(write.resume(Reply::Affected(1)), Step::Done(Err(StoreFault::Protocol)));
    let edit = match store().edit_plot(5, None) {
        Step::Next(state, _) => state.write,
        _ => panic!("an assignment begins at the cache"),
    };
    assert_eq!(edit.kind, WriteKind::Edit);
}

#[test]
fn trust_list_is_read_through_the_cache() {
    let mut host = world();
    host.db.trust.insert(1, [2, 5].into_iter().collect());
    assert_eq!(host.fetch_trust(&store(), 1), Ok(vec![2, 5]));
    assert_eq!(
        host.log,
        vec![
            Command::CacheGet(CacheKey::Trust(1)),
            Command::SelectTrust(1),
            Command::CacheSet(CacheKey::Trust(1), CacheValue::Trust(TrustVec(vec![2, 5]))),
        ]
    );
    assert_eq!(host.fetch_trust(&store(), 1), Ok(vec![2, 5]));
    assert_eq!(host.statements, 1);
    assert_eq!(host.fetch_trust(&store(), 2), Ok(vec![]));
    host.fail_on = Some(host.log.len() + 1);
    assert_eq!(host.fetch_trust(&store(), 1), Err(StoreFault::Backend));
    host.cache.insert("plot:3:baton_trust".to_string(), CacheValue::Owner(1));
    assert_eq!(host.fetch_trust(&store(), 3), Err(StoreFault::Protocol));
}

#[test]
fn trust_list_is_replaced_in_one_transaction() {
    let mut host = world();
    host.db.trust.insert(1, [9].into_iter().collect());
    host.cache.insert("plot:1:baton_trust".to_string(), CacheValue::Trust(TrustVec(vec![9])));
    assert_eq!(host.set_trust(&store(), 1, vec![2, 2, 1]), Ok(Ok(())));
    assert_eq!(
        host.log,
        vec![
            Command::Begin,
            Command::PlotPresent(1),
            Command::DeleteTrust(1),
            Command::InsertTrust(1, TrustVec(vec![2, 2, 1])),
            Command::Commit,
            Command::CacheDel(CacheKey::Trust(1)),
        ]
    );
    assert_eq!(host.db.trust.get(&1), Some(&[1, 2].into_iter().collect()));
    assert_eq!(host.cache.get("plot:1:baton_trust"), None);
    assert_eq!(host.fetch_trust(&store(), 1), Ok(vec![1, 2]));
}

#[test]
fn trust_list_of_a_missing_plot_is_not_replaced() {
    let mut host = world();
    host.cache.insert("plot:9:baton_trust".to_string(), CacheValue::Trust(TrustVec(vec![1])));
    let before = host.db.clone();
    assert_eq!(host.set_trust(&store(), 9, vec![1]), Ok(Err(PlotTrustSetError::PlotNotFound)));
    assert_eq!(host.db, before);
    assert_eq!(host.tx, None);
    assert!(host.cache.contains_key("plot:9:baton_trust"));
    assert_eq!(host.log, vec![Command::Begin, Command::PlotPresent(9), Command::Rollback]);
}

#[test]
fn broken_replacement_keeps_the_old_list_and_the_cache() {
    for at in 1..=5 {
        let mut host = world();
        host.db.trust.insert(1, [9].into_iter().collect());
        host.cache.insert("plot:1:baton_trust".to_string(), CacheValue::Trust(TrustVec(vec![9])));
        let before = host.db.clone();
        host.fail_on = Some(at);
        assert_eq!(host.set_trust(&store(), 1, vec![2]), Err(StoreFault::Backend), "{}", at);
        assert_eq!(host.db, before, "{}", at);
        assert_eq!(host.tx, None);
        assert!(host.cache.contains_key("plot:1:baton_trust"));
        assert!(!host.log.iter().any(|c| matches!(c, Command::CacheDel(_))));
    }
}

fn key_auth(plot: i32) -> Auth {
    Auth::KeyAuth(KeyAuth(plot_here(plot, 100)))
}

#[test]
fn targets_must_all_be_registered() {
    let mut host = world();
    host.db.trust.insert(1, [2].into_iter().collect());
    host.cache.insert("plot:1:baton_trust".to_string(), CacheValue::Trust(TrustVec(vec![2])));
    let api = BatonApi { store: store() };
    let before = host.db.clone();
    let step = api.set_trusted(key_auth(1), vec![2, 8, 1, 9, 8]);
    let result = host.run(step, |s, r| s.resume(r));
    assert_eq!(result, Ok(SetTrustedResult::OtherPlotNotRegistered(vec![8, 9, 8])));
    assert_eq!(result.unwrap().status(), 409);
    assert_eq!(host.db, before);
    assert_eq!(host.tx, None);
    assert_eq!(host.cache.get("plot:1:baton_trust"), Some(&CacheValue::Trust(TrustVec(vec![2]))));
    assert!(host.log.iter().all(|c| matches!(
        c,
        Command::CacheGet(CacheKey::Plot(_))
            | Command::SelectPlot(_)
            | Command::CacheSet(CacheKey::Plot(_), _)
    )));
}

#[test]
fn targets_are_looked_for_one_after_the_other() {
    let mut host = world();
    host.cache.insert("plot:2".to_string(), CacheValue::Plot(plot_there(2, 200)));
    let api = BatonApi { store: store() };
    let step = api.set_trusted(key_auth(1), vec![2, 1, 7]);
    assert_eq!(
        host.run(step, |s, r| s.resume(r)),
        Ok(SetTrustedResult::OtherPlotNotRegistered(vec![7]))
    );
    assert_eq!(
        host.log,
        vec![
            Command::CacheGet(CacheKey::Plot(2)),
            Command::CacheGet(CacheKey::Plot(1)),
            Command::SelectPlot(1),
            Command::CacheSet(CacheKey::Plot(1), CacheValue::Plot(plot_here(1, 100))),
            Command::CacheGet(CacheKey::Plot(7)),
            Command::SelectPlot(7),
        ]
    );
}

#[test]
fn registered_targets_replace_the_list() {
    let mut host = world();
    let api = BatonApi { store: store() };
    let step = api.set_trusted(key_auth(1), vec![2, 1]);
    assert_eq!(host.run(step, |s, r| s.resume(r)), Ok(SetTrustedResult::Success));
    assert_eq!(host.db.trust.get(&1), Some(&[1, 2].into_iter().collect()));
    assert_eq!(host.log.last(), Some(&Command::CacheDel(CacheKey::Trust(1))));
    let step = api.set_trusted(key_auth(1), vec![]);
    assert_eq!(host.run(step, |s, r| s.resume(r)), Ok(SetTrustedResult::Success));
    assert_eq!(host.db.trust.get(&1), Some(&BTreeSet::new()));
    let step = api.set_trusted(key_auth(9), vec![1]);
    assert_eq!(host.run(step, |s, r| s.resume(r)), Ok(SetTrustedResult::PlotNotFound));
    assert_eq!(SetTrustedResult::Success.status(), 200);
    assert_eq!(SetTrustedResult::PlotNotFound.status(), 404);
}

#[test]
fn failed_population_does_not_fail_the_request() {
    let mut host = world();
    let api = BatonApi { store: store() };
    host.fail_on = Some(3);
    let step = api.set_trusted(key_auth(1), vec![2]);
    assert_eq!(host.run(step, |s, r| s.resume(r)), Ok(SetTrustedResult::Success));
    let mut host = world();
    host.fail_on = Some(2);
    let step = api.set_trusted(key_auth(1), vec![2]);
    assert_eq!(host.run(step, |s, r| s.resume(r)), Err(StoreFault::Backend));
    assert_eq!(host.db.trust.get(&1), None);
}

#[test]
fn trusted_plots_are_read_for_the_caller() {
    let mut host = world();
    host.db.trust.insert(2, [1].into_iter().collect());
    let api = BatonApi { store: store() };
    let step = api.get_trusted(Auth::PlotAuth(PlotAuth(plot_there(2, 200))));
    assert_eq!(host.run(step, |s, r| s.resume(r)), Ok(vec![1]));
}

#[test]
fn unknown_api_key_is_remembered_as_none() {
    let mut host = world();
    assert_eq!(host.verify_key(&store(), "bad-key"), Ok(None));
    assert_eq!(host.statements, 1);
    let entry = CacheKey::for_api_key("bad-key").render();
    match host.cache.get(&entry) {
        Some(CacheValue::Plot(p)) => {
            assert_eq!(p.plot_id, SENTINEL_PLOT);
            assert!(p.plot_id < 0);
            assert_eq!(p.owner, 0);
            assert_eq!(p.instance, store().construct_current_instance());
        }
        other => panic!("no sentinel: {:?}", other),
    }
    assert_eq!(host.verify_key(&store(), "bad-key"), Ok(None));
    assert_eq!(host.verify_key(&store(), "bad-key"), Ok(None));
    assert_eq!(host.statements, 1);
    assert_eq!(host.verify_key(&store(), "other-bad-key"), Ok(None));
    assert_eq!(host.statements, 2);
}

#[test]
fn api_key_is_looked_up_under_its_digest() {
    let mut host = world();
    assert_eq!(host.verify_key(&store(), "good-key"), Ok(Some(plot_there(2, 200))));
    let entry = CacheKey::for_api_key("good-key");
    assert_eq!(
        host.log,
        vec![
            Command::CacheGet(entry.clone()),
            Command::SelectKey("good-key".to_string()),
            Command::CacheSet(entry.clone(), CacheValue::Plot(plot_there(2, 200))),
        ]
    );
    assert!(entry.render().starts_with("key:"));
    assert!(!entry.render().contains("good-key"));
    assert_eq!(host.verify_key(&store(), "good-key"), Ok(Some(plot_there(2, 200))));
    assert_eq!(host.statements, 1);
}

#[test]
fn stored_key_of_a_number_below_zero_is_a_fault() {
    let mut host = world();
    host.db.plots.insert(-1, (9, None));
    host.db.keys.insert("odd-key".to_string(), (-1, false));
    assert_eq!(host.verify_key(&store(), "odd-key"), Err(StoreFault::NegativePlot));
    assert!(host.cache.is_empty());
    assert_eq!(host.verify_key(&store(), "odd-key"), Err(StoreFault::NegativePlot));
    assert_eq!(host.statements, 2);
}

#[test]
fn cached_plot_below_zero_stands_for_none() {
    let mut host = world();
    for number in [-1, -2, i32::MIN] {
        host.cache.insert(
            CacheKey::for_api_key("some-key").render(),
            CacheValue::Plot(plot_here(number, 0)),
        );
        assert_eq!(host.verify_key(&store(), "some-key"), Ok(None));
    }
    host.cache.insert(
        CacheKey::for_api_key("some-key").render(),
        CacheValue::Plot(plot_here(0, 3)),
    );
    assert_eq!(host.verify_key(&store(), "some-key"), Ok(Some(plot_here(0, 3))));
    assert_eq!(host.statements, 0);
}

#[test]
fn disabled_keys_stay_stored_and_are_read_as_none() {
    let mut host = world();
    host.db.keys.insert("second-key".to_string(), (2, false));
    host.db.keys.insert("other-plot-key".to_string(), (1, false));
    host.verify_key(&store(), "good-key").unwrap();
    host.verify_key(&store(), "other-plot-key").unwrap();
    let stored = host.db.keys.len();
    assert_eq!(host.run(store().disable_all_keys(2), |s, r| s.resume(r)), Ok(()));
    assert_eq!(host.db.keys.len(), stored);
    assert_eq!(host.db.keys.get("good-key"), Some(&(2, true)));
    assert_eq!(host.db.keys.get("second-key"), Some(&(2, true)));
    assert_eq!(host.db.keys.get("old-key"), Some(&(2, true)));
    assert_eq!(host.db.keys.get("other-plot-key"), Some(&(1, false)));
    assert!(!host.cache.contains_key(&CacheKey::for_api_key("good-key").render()));
    assert!(host.cache.contains_key(&CacheKey::for_api_key("other-plot-key").render()));
    assert_eq!(host.verify_key(&store(), "good-key"), Ok(None));
    assert_eq!(host.verify_key(&store(), "second-key"), Ok(None));
    assert_eq!(host.verify_key(&store(), "other-plot-key"), Ok(Some(plot_here(1, 100))));
}

#[test]
fn trust_list_read_back_names_each_plot_once() {
    let mut host = world();
    assert_eq!(host.set_trust(&store(), 1, vec![2, 2, 1, 2, 1]), Ok(Ok(())));
    let list = host.fetch_trust(&store(), 1).unwrap();
    let mut sorted = list.clone();
    sorted.sort();
    sorted.dedup();
    assert_eq!(sorted.len(), list.len());
    assert_eq!(sorted, vec![1, 2]);
    assert_eq!(host.fetch_trust(&store(), 1).unwrap(), list);
}

#[test]
fn disabled_api_key_is_none() {
    let mut host = world();
    assert_eq!(host.verify_key(&store(), "old-key"), Ok(None));
    host.fail_on = Some(host.log.len() + 3);
    assert_eq!(host.verify_key(&store(), "x"), Err(StoreFault::Backend));
}

#[test]
fn issued_api_key_is_stored_and_handed_out() {
    let mut host = world();
    let first = host.run(store().create_key(1), |s, r| s.resume(r)).unwrap();
    assert_eq!(first.chars().count(), API_KEY_LENGTH);
    assert_eq!(API_KEY_LENGTH, 32);
    assert!(first.chars().all(|c| c.is_ascii_alphanumeric()));
    assert_eq!(host.db.keys.get(&first), Some(&(1, false)));
    assert_eq!(host.log, vec![Command::InsertKey(1, first.clone())]);
    let second = host.run(store().create_key(1), |s, r| s.resume(r)).unwrap();
    assert_ne!(first, second);
    assert_eq!(host.verify_key(&store(), &first), Ok(Some(plot_here(1, 100))));
    host.fail_on = Some(host.log.len() + 1);
    assert_eq!(host.run(store().create_key(1), |s, r| s.resume(r)), Err(StoreFault::Backend));
    assert_eq!(
        KeyIssue::start(3, "k".to_string()),
        Step::Next(KeyIssue { key: "k".to_string() }, Command::InsertKey(3, "k".to_string()))
    );
}

#[test]
fn disabling_api_keys_clears_their_entries() {
    let mut host = world();
    host.db.keys.insert("second-key".to_string(), (2, false));
    host.verify_key(&store(), "good-key").unwrap();
    host.verify_key(&store(), "second-key").unwrap();
    assert_eq!(host.cache.len(), 2);
    host.log.clear();
    assert_eq!(host.run(store().disable_all_keys(2), |s, r| s.resume(r)), Ok(()));
    assert!(host.cache.is_empty());
    assert_eq!(host.log.len(), 3);
    assert_eq!(host.log[0], Command::DisableKeys(2));
    assert_eq!(host.log[1], Command::CacheDel(CacheKey::for_api_key("good-key")));
    assert_eq!(host.log[2], Command::CacheDel(CacheKey::for_api_key("second-key")));
    assert_eq!(host.verify_key(&store(), "good-key"), Ok(None));
    assert_eq!(host.run(store().disable_all_keys(2), |s, r| s.resume(r)), Ok(()));
    let purge = match store().disable_all_keys(2) {
        Step::Next(state, _) => state,
        _ => panic!("disabling begins at the database"),
    };
    assert_eq!(
        purge.resume(Reply::Hashes(vec![vec![1, 2, 3]])),
        Step::Done(Err(StoreFault::Inconsistent))
    );
}

#[test]
fn player_is_asked_for_once() {
    let mut host = world();
    let id = 0x550e8400e29b41d4a716446655440000;
    let step = store().get_uuid("DynamicCake".to_string());
    assert_eq!(host.run(step, |s, r| s.resume(r)), Ok(Some(id)));
    assert_eq!(
        host.log,
        vec![
            Command::CacheGet(CacheKey::Player("DynamicCake".to_string())),
            Command::ResolvePlayer("DynamicCake".to_string()),
            Command::CacheSet(CacheKey::Player("DynamicCake".to_string()), CacheValue::Owner(id)),
        ]
    );
    host.players.clear();
    let step = store().get_uuid("DynamicCake".to_string());
    assert_eq!(host.run(step, |s, r| s.resume(r)), Ok(Some(id)));
    let step = store().get_uuid("Nobody".to_string());
    assert_eq!(host.run(step, |s, r| s.resume(r)), Ok(None));
    assert!(!host.cache.contains_key("player:Nobody:uuid"));
    host.players.insert("Somebody".to_string(), 8);
    host.fail_on = Some(host.log.len() + 2);
    let step = store().get_uuid("Somebody".to_string());
    assert_eq!(host.run(step, |s, r| s.resume(r)), Ok(None));
    assert!(!host.cache.contains_key("player:Somebody:uuid"));
    host.fail_on = Some(host.log.len() + 1);
    let step = store().get_uuid("Somebody".to_string());
    assert_eq!(host.run(step, |s, r| s.resume(r)), Err(StoreFault::Backend));
    host.fail_on = Some(host.log.len() + 3);
    let step = store().get_uuid("Somebody".to_string());
    assert_eq!(host.run(step, |s, r| s.resume(r)), Err(StoreFault::Backend));
    host.fail_on = None;
    let step = store().get_uuid("Somebody".to_string());
    assert_eq!(host.run(step, |s, r| s.resume(r)), Ok(Some(8)));
}

#[test]
fn silent_account_service_blocks_the_registration() {
    let api = instance_api();
    let mut host = world();
    host.fail_on = Some(2);
    let step = api.register(None, vouched(5, "DynamicCake"));
    assert_eq!(host.run(step, |s, r| s.resume(&api.store, r)), Ok(RegisterResult::CannotFetchUuid));
    assert!(!host.db.plots.contains_key(&5));
}

#[test]
fn player_account_has_its_cache_text() {
    let id = 113059749145936325402354257176981405696;
    assert_eq!(owner_cache_text(id), "550e8400-e29b-41d4-a716-446655440000");
    assert_eq!(owner_cache_text(0), "00000000-0000-0000-0000-000000000000");
    assert_eq!(owner_of_cache_text("550e8400-e29b-41d4-a716-446655440000"), Some(id));
    assert_eq!(owner_of_cache_text("550e8400e29b41d4a716446655440000"), Some(id));
    assert_eq!(owner_of_cache_text("550E8400-E29B-41D4-A716-446655440000"), Some(id));
    assert_eq!(owner_of_cache_text("not an account"), None);
    assert_eq!(owner_of_cache_text(""), None);
    for id in [1u128, u128::MAX, 42 << 64] {
        assert_eq!(owner_of_cache_text(&owner_cache_text(id)), Some(id));
    }
    assert_eq!(
        profile_url("Notch"),
        "https://api.mojang.com/users/profiles/minecraft/Notch"
    );
}

fn instance_api() -> InstanceApi {
    InstanceApi {
        store: store(),
        domain: ExternalDomain::convert("here.example".to_string()).unwrap(),
    }
}

fn vouched(plot: i32, owner: &str) -> UnregisteredAuth {
    UnregisteredAuth(UnregisteredPlot { plot_id: plot, owner: owner.to_string() })
}

#[test]
fn registration_needs_the_owner_the_key_and_a_free_plot() {
    let api = instance_api();
    let mut host = world();
    let step = api.register(None, vouched(5, "Nobody"));
    assert_eq!(host.run(step, |s, r| s.resume(&api.store, r)), Ok(RegisterResult::CannotFetchUuid));
    let step = api.register(Some("???".to_string()), vouched(5, "DynamicCake"));
    assert_eq!(
        host.run(step, |s, r| s.resume(&api.store, r)),
        Ok(RegisterResult::InvalidKeyFormat(KeyFormatError::Encoding))
    );
    let step = api.register(Some("AAAA".to_string()), vouched(5, "DynamicCake"));
    assert_eq!(
        host.run(step, |s, r| s.resume(&api.store, r)),
        Ok(RegisterResult::InvalidKeyFormat(KeyFormatError::Length))
    );
    let step = api.register(Some(peer_key(2).encode()), vouched(5, "DynamicCake"));
    assert_eq!(
        host.run(step, |s, r| s.resume(&api.store, r)),
        Ok(RegisterResult::InstanceNotRegistered)
    );
    assert!(!host.db.plots.contains_key(&5));
    let step = api.register(Some(peer_key(1).encode()), vouched(5, "DynamicCake"));
    assert_eq!(host.run(step, |s, r| s.resume(&api.store, r)), Ok(RegisterResult::Registered));
    assert_eq!(
        host.db.plots.get(&5),
        Some(&(0x550e8400e29b41d4a716446655440000, Some(40)))
    );
    let step = api.register(None, vouched(5, "DynamicCake"));
    assert_eq!(
        host.run(step, |s, r| s.resume(&api.store, r)),
        Ok(RegisterResult::PlotAlreadyExists)
    );
    host.fail_on = Some(host.log.len() + 1);
    let step = api.register(None, vouched(6, "DynamicCake"));
    assert_eq!(host.run(step, |s, r| s.resume(&api.store, r)), Err(StoreFault::Backend));
}

#[test]
fn registration_answers_have_their_status() {
    assert_eq!(RegisterResult::CannotFetchUuid.status(), 500);
    assert_eq!(RegisterResult::InstanceNotRegistered.status(), 400);
    assert_eq!(RegisterResult::InvalidKeyFormat(KeyFormatError::Point).status(), 400);
    assert_eq!(RegisterResult::PlotAlreadyExists.status(), 409);
    assert_eq!(RegisterResult::Registered.status(), 200);
    assert_eq!(ReplaceInstanceResult::PlotNotFound.status(), 404);
    assert_eq!(ReplaceInstanceResult::InstanceNotRegisterd.status(), 400);
    assert_eq!(ReplaceInstanceResult::InvalidKeyFormat(KeyFormatError::Length).status(), 400);
    assert_eq!(ReplaceInstanceResult::Success.status(), 200);
    assert_eq!(PlotFetchResult::NotFound.status(), 404);
    assert_eq!(PlotFetchResult::Found(String::new()).status(), 200);
    assert_eq!(TransferSendResult::NotTrusted.status(), 409);
    assert_eq!(TransferSendResult::Accepted.status(), 200);
}

#[test]
fn caller_assigns_its_plot_to_an_instance() {
    let api = instance_api();
    let mut host = world();
    let step = api.replace_instance(Some("???".to_string()), key_auth(1));
    assert_eq!(step, Step::Done(Ok(ReplaceInstanceResult::InvalidKeyFormat(KeyFormatError::Encoding))));
    let step = api.replace_instance(Some(peer_key(1).encode()), key_auth(1));
    assert_eq!(host.run(step, |s, r| s.resume(r)), Ok(ReplaceInstanceResult::Success));
    assert_eq!(host.db.plots.get(&1), Some(&(100, Some(40))));
    let step = api.replace_instance(Some(peer_key(5).encode()), key_auth(1));
    assert_eq!(host.run(step, |s, r| s.resume(r)), Ok(ReplaceInstanceResult::InstanceNotRegisterd));
    let step = api.replace_instance(None, key_auth(9));
    assert_eq!(host.run(step, |s, r| s.resume(r)), Ok(ReplaceInstanceResult::PlotNotFound));
    let step = api.replace_instance(None, key_auth(1));
    assert_eq!(host.run(step, |s, r| s.resume(r)), Ok(ReplaceInstanceResult::Success));
    assert_eq!(host.db.plots.get(&1), Some(&(100, None)));
}

#[test]
fn instance_of_a_plot_is_shown_as_text() {
    let api = instance_api();
    let mut host = world();
    let found = host.run(api.get_plot_instance(2), |s, r| s.resume(r)).unwrap();
    assert_eq!(
        api.plot_instance(&found),
        PlotFetchResult::Found(format!("peer.example;{}", peer_key(1).encode()))
    );
    let found = host.run(api.get_plot_instance(1), |s, r| s.resume(r)).unwrap();
    assert_eq!(
        api.plot_instance(&found),
        PlotFetchResult::Found(format!("here.example;{}", store().public_key().encode()))
    );
    let found = host.run(api.get_plot_instance(9), |s, r| s.resume(r)).unwrap();
    assert_eq!(api.plot_instance(&found), PlotFetchResult::NotFound);
    assert_eq!(api.whoami(key_auth(1)), 1);
    assert_eq!(api.whoami(Auth::PlotAuth(PlotAuth(plot_there(2, 200)))), 2);
}

#[test]
fn caller_manages_the_api_keys_of_its_plot() {
    let api = instance_api();
    let mut host = world();
    let key = host.run(api.create_api_key(PlotAuth(plot_here(1, 100))), |s, r| s.resume(r)).unwrap();
    assert_eq!(host.db.keys.get(&key), Some(&(1, false)));
    assert_eq!(host.run(api.delete_all_api_keys(key_auth(1)), |s, r| s.resume(r)), Ok(()));
    assert_eq!(host.db.keys.get(&key), Some(&(1, true)));
    assert_eq!(host.db.keys.get("good-key"), Some(&(2, false)));
}

fn token_of(key: &PublicKey, domain: &str) -> ExternalServerAuth {
    ExternalServerAuth(ExternalServer {
        sub: SendInstance { key: key.encode(), domain: domain.to_string() },
        iat: 1_800_000_000,
        exp: 1_800_010_800,
        jti: 1,
    })
}

#[test]
fn transfer_is_taken_from_the_instance_of_a_trusted_plot() {
    let api = BatonApi { store: store() };
    let mut host = world();
    host.db.trust.insert(1, [5, 2].into_iter().collect());
    let step = api.transfer_recv(2, 1, &token_of(&peer_key(1), "peer.example"));
    assert_eq!(host.run(step, |s, r| s.resume(r)), Ok(TransferSendResult::Accepted));
    assert_eq!(
        host.log,
        vec![
            Command::CacheGet(CacheKey::Trust(1)),
            Command::SelectTrust(1),
            Command::CacheSet(CacheKey::Trust(1), CacheValue::Trust(TrustVec(vec![2, 5]))),
            Command::CacheGet(CacheKey::Plot(2)),
            Command::SelectPlot(2),
            Command::CacheSet(CacheKey::Plot(2), CacheValue::Plot(plot_there(2, 200))),
        ]
    );
    let step = api.transfer_recv(2, 1, &token_of(&peer_key(1), "other.example"));
    assert_eq!(host.run(step, |s, r| s.resume(r)), Ok(TransferSendResult::Accepted));
    assert_eq!(host.statements, 2);
}

#[test]
fn transfer_is_refused_without_trust_or_from_another_instance() {
    let api = BatonApi { store: store() };
    let mut host = world();
    host.db.trust.insert(1, [5, 1, 2, 9].into_iter().collect());
    let step = api.transfer_recv(2, 2, &token_of(&peer_key(1), "peer.example"));
    assert_eq!(host.run(step, |s, r| s.resume(r)), Ok(TransferSendResult::NotTrusted));
    assert!(!host.log.iter().any(|c| matches!(c, Command::SelectPlot(_))));
    let step = api.transfer_recv(7, 1, &token_of(&peer_key(1), "peer.example"));
    assert_eq!(host.run(step, |s, r| s.resume(r)), Ok(TransferSendResult::NotTrusted));
    let step = api.transfer_recv(2, 1, &token_of(&peer_key(3), "peer.example"));
    assert_eq!(host.run(step, |s, r| s.resume(r)), Ok(TransferSendResult::NotTrusted));
    let step = api.transfer_recv(1, 1, &token_of(&peer_key(1), "peer.example"));
    assert_eq!(host.run(step, |s, r| s.resume(r)), Ok(TransferSendResult::NotTrusted));
    let spoiled = ExternalServerAuth(ExternalServer {
        sub: SendInstance { key: "???".to_string(), domain: "peer.example".to_string() },
        iat: 0,
        exp: 0,
        jti: 0,
    });
    assert_eq!(api.transfer_recv(2, 1, &spoiled), Step::Done(Ok(TransferSendResult::NotTrusted)));
    let step = api.transfer_recv(9, 1, &token_of(&peer_key(1), "peer.example"));
    assert_eq!(host.run(step, |s, r| s.resume(r)), Err(StoreFault::Inconsistent));
    host.fail_on = Some(host.log.len() + 1);
    let step = api.transfer_recv(2, 1, &token_of(&peer_key(1), "peer.example"));
    assert_eq!(host.run(step, |s, r| s.resume(r)), Err(StoreFault::Backend));
    host.fail_on = Some(host.log.len() + 2);
    let step = api.transfer_recv(2, 1, &token_of(&peer_key(1), "peer.example"));
    assert_eq!(host.run(step, |s, r| s.resume(r)), Err(StoreFault::Backend));
}

#[test]
fn caller_is_proved_by_its_api_key() {
    let mut host = world();
    let step = KeyCheck::start(&store(), Some("good-key".to_string()));
    assert_eq!(host.run(step, |s, r| s.resume(r)), Ok(Ok(plot_there(2, 200))));
    let step = KeyCheck::start(&store(), Some("bad-key".to_string()));
    assert_eq!(host.run(step, |s, r| s.resume(r)), Ok(Err(KeyAuthError::InvalidApiKey)));
    assert_eq!(KeyCheck::start(&store(), None), Step::Done(Ok(Err(KeyAuthError::InvalidApiKey))));
    host.fail_on = Some(host.log.len() + 1);
    let step = KeyCheck::start(&store(), Some("good-key".to_string()));
    assert_eq!(host.run(step, |s, r| s.resume(r)), Err(StoreFault::Backend));
}

const GAME_SERVER: PeerAddr = PeerAddr::V4(51, 222, 245, 229);

#[test]
fn caller_is_proved_by_a_game_server() {
    let mut host = world();
    let current = store().public_key();
    let step = PlotCheck::start(current, GAME_SERVER, "Hypercube/7.2 (2, Anyone)", false);
    assert_eq!(host.run(step, |s, r| s.resume(r)), Ok(Ok(plot_there(2, 200))));
    let step = PlotCheck::start(current, GAME_SERVER, "Hypercube/7.2 (9, Anyone)", false);
    assert_eq!(host.run(step, |s, r| s.resume(r)), Ok(Err(PlotAuthError::PlotNotRegistered)));
    assert_eq!(
        PlotCheck::start(current, GAME_SERVER, "garbage", false),
        Step::Done(Ok(Err(PlotAuthError::MalformedUserAgent)))
    );
    assert_eq!(
        PlotCheck::start(current, PeerAddr::V4(1, 2, 3, 4), "Hypercube/7.2 (2, Anyone)", false),
        Step::Done(Ok(Err(PlotAuthError::InvalidIp)))
    );
    assert_eq!(
        PlotCheck::start(current, PeerAddr::V6, "Hypercube/7.2 (2, Anyone)", false),
        Step::Done(Ok(Err(PlotAuthError::NotIpv4)))
    );
    assert_eq!(
        PlotCheck::start(current, PeerAddr::Other, "Hypercube/7.2 (2, Anyone)", false),
        Step::Done(Ok(Err(PlotAuthError::NotInternetSocketAddr)))
    );
}

#[test]
fn either_credential_proves_a_caller() {
    let mut host = world();
    let header = "Hypercube/7.2 (1, Anyone)".to_string();
    let step = Authentication::start(
        &store(),
        Some("good-key".to_string()),
        PeerAddr::V6,
        String::new(),
        false,
    );
    assert_eq!(
        host.run(step, |s, r| s.resume(r)),
        Ok(Ok(Auth::KeyAuth(KeyAuth(plot_there(2, 200)))))
    );
    let step = Authentication::start(&store(), None, GAME_SERVER, header.clone(), false);
    assert_eq!(
        host.run(step, |s, r| s.resume(r)),
        Ok(Ok(Auth::PlotAuth(PlotAuth(plot_here(1, 100)))))
    );
    let step = Authentication::start(
        &store(),
        Some("bad-key".to_string()),
        GAME_SERVER,
        header.clone(),
        false,
    );
    assert_eq!(
        host.run(step, |s, r| s.resume(r)),
        Ok(Ok(Auth::PlotAuth(PlotAuth(plot_here(1, 100)))))
    );
    let step = Authentication::start(
        &store(),
        Some("bad-key".to_string()),
        PeerAddr::V4(9, 9, 9, 9),
        header.clone(),
        false,
    );
    assert_eq!(host.run(step, |s, r| s.resume(r)), Ok(Err(PlotAuthError::InvalidIp)));
    let step = Authentication::start(&store(), None, GAME_SERVER, "nothing".to_string(), false);
    assert_eq!(step, Step::Done(Ok(Err(PlotAuthError::MalformedUserAgent))));
    host.fail_on = Some(host.log.len() + 1);
    let step = Authentication::start(&store(), Some("k".to_string()), GAME_SERVER, header, false);
    assert_eq!(host.run(step, |s, r| s.resume(r)), Err(StoreFault::Backend));
}
