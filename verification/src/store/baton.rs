//! The trust lists: which plots a plot takes transfers from.

use crate::store::{CacheKey, CacheValue, Command, Reply, Step, Store, StoreFault, TrustVec};
use crate::PlotId;
use vstd::prelude::*;

verus! {

/// Why a trust list is not replaced.
#[derive(Clone, Copy, PartialEq, Eq, Structural, Debug)]
pub enum PlotTrustSetError {
    PlotNotFound,
}

/// Reading the trust list of a plot: first the cache, and the database
/// only where the cache has nothing; what the database gave is put into the
/// cache before the answer.
#[derive(Debug, PartialEq, Eq)]
pub enum TrustLookup {
    AwaitCache { plot: PlotId },
    AwaitRows { plot: PlotId },
    AwaitStore { found: Vec<PlotId> },
}

fn copy_list(list: &Vec<PlotId>) -> (r: Vec<PlotId>)
    ensures
        r@ == list@,
{
    let mut out: Vec<PlotId> = Vec::new();
    let mut i: usize = 0;
    while i < list.len()
        invariant
            i <= list.len(),
            out@ == list@.take(i as int),
        decreases list.len() - i,
    {
        out.push(list[i]);
        assert(list@.take(i + 1) =~= list@.take(i as int).push(list@[i as int]));
        i += 1;
    }
    assert(list@.take(list@.len() as int) =~= list@);
    out
}

/// The reading of a trust list, with the list that was read as a sequence.
pub enum TrustLookupView {
    AwaitCache { plot: PlotId },
    AwaitRows { plot: PlotId },
    AwaitStore { found: Seq<PlotId> },
}

impl View for TrustLookup {
    type V = TrustLookupView;

    open spec fn view(&self) -> TrustLookupView {
        match self {
            TrustLookup::AwaitCache { plot } => TrustLookupView::AwaitCache { plot: *plot },
            TrustLookup::AwaitRows { plot } => TrustLookupView::AwaitRows { plot: *plot },
            TrustLookup::AwaitStore { found } => TrustLookupView::AwaitStore { found: found@ },
        }
    }
}

/// A step of the reading, with the list as a sequence.
pub open spec fn listed(step: Step<TrustLookup, Result<Vec<PlotId>, StoreFault>>) -> Step<
    TrustLookupView,
    Result<Seq<PlotId>, StoreFault>,
> {
    match step {
        Step::Next(state, command) => Step::Next(state@, command),
        Step::Done(Ok(list)) => Step::Done(Ok(list@)),
        Step::Done(Err(e)) => Step::Done(Err(e)),
        Step::Settled(Ok(list), command) => Step::Settled(Ok(list@), command),
        Step::Settled(Err(e), command) => Step::Settled(Err(e), command),
    }
}

impl TrustLookupView {
    /// How the operation begins.
    pub open spec fn begin(plot: PlotId) -> Step<TrustLookupView, Result<Seq<PlotId>, StoreFault>> {
        Step::Next(TrustLookupView::AwaitCache { plot }, Command::CacheGet(CacheKey::Trust(plot)))
    }

    /// How the operation goes on after a reply.
    pub open spec fn step(self, reply: Reply) -> Step<
        TrustLookupView,
        Result<Seq<PlotId>, StoreFault>,
    > {
        match (self, reply) {
            (TrustLookupView::AwaitCache { plot }, Reply::Cached(Some(CacheValue::Trust(list)))) => Step::Done(
                Ok(list@),
            ),
            (TrustLookupView::AwaitCache { plot }, Reply::Cached(None)) => Step::Next(
                TrustLookupView::AwaitRows { plot },
                Command::SelectTrust(plot),
            ),
            (TrustLookupView::AwaitRows { plot }, Reply::Trust(rows)) => Step::Next(
                TrustLookupView::AwaitStore { found: rows@ },
                Command::CacheSet(CacheKey::Trust(plot), CacheValue::Trust(rows)),
            ),
            (TrustLookupView::AwaitStore { found }, Reply::Done) => Step::Done(Ok(found)),
            (_, Reply::Failed) => Step::Done(Err(StoreFault::Backend)),
            _ => Step::Done(Err(StoreFault::Protocol)),
        }
    }
}

impl TrustLookup {
    /// Begins reading the trust list of `plot`.
    pub fn start(plot: PlotId) -> (r: Step<TrustLookup, Result<Vec<PlotId>, StoreFault>>)
        ensures
            listed(r) == TrustLookupView::begin(plot),
    {
        Step::Next(TrustLookup::AwaitCache { plot }, Command::CacheGet(CacheKey::Trust(plot)))
    }

    /// Takes the reply to the last command and says how the operation goes on.
    pub fn resume(self, reply: Reply) -> (r: Step<TrustLookup, Result<Vec<PlotId>, StoreFault>>)
        ensures
            listed(r) == self@.step(reply),
    {
        match reply {
            Reply::Failed => Step::Done(Err(StoreFault::Backend)),
            Reply::Cached(cached) => match self {
                TrustLookup::AwaitCache { plot } => match cached {
                    Some(CacheValue::Trust(list)) => Step::Done(Ok(list.0)),
                    None => Step::Next(TrustLookup::AwaitRows { plot }, Command::SelectTrust(plot)),
                    _ => Step::Done(Err(StoreFault::Protocol)),
                },
                _ => Step::Done(Err(StoreFault::Protocol)),
            },
            Reply::Trust(rows) => match self {
                TrustLookup::AwaitRows { plot } => {
                    let found = copy_list(&rows.0);
                    Step::Next(
                        TrustLookup::AwaitStore { found },
                        Command::CacheSet(CacheKey::Trust(plot), CacheValue::Trust(rows)),
                    )
                },
                _ => Step::Done(Err(StoreFault::Protocol)),
            },
            Reply::Done => match self {
                TrustLookup::AwaitStore { found } => Step::Done(Ok(found)),
                _ => Step::Done(Err(StoreFault::Protocol)),
            },
            _ => Step::Done(Err(StoreFault::Protocol)),
        }
    }
}

/// Replacing the trust list of a plot, inside one transaction: the plot
/// must be there, its old list goes, the new one comes, and only after the
/// commit does the list's entry of the cache go.
#[derive(Debug, PartialEq, Eq)]
pub enum TrustReplace {
    Opening { plot: PlotId, trusts: Vec<PlotId> },
    Checking { plot: PlotId, trusts: Vec<PlotId> },
    Deleting { plot: PlotId, trusts: Vec<PlotId> },
    Inserting { plot: PlotId },
    Committing { plot: PlotId },
    Clearing,
    /// The transaction is being given up; the outcome is settled.
    Closing(Result<Result<(), PlotTrustSetError>, StoreFault>),
}

impl TrustReplace {
    /// The fault that a reply stands for where it is not the one awaited.
    pub open spec fn fault_of(reply: Reply) -> StoreFault {
        if reply is Failed {
            StoreFault::Backend
        } else {
            StoreFault::Protocol
        }
    }

    /// Gives up the transaction with a settled outcome.
    pub open spec fn close(outcome: Result<Result<(), PlotTrustSetError>, StoreFault>) -> Step<
        TrustReplace,
        Result<Result<(), PlotTrustSetError>, StoreFault>,
    > {
        Step::Next(TrustReplace::Closing(outcome), Command::Rollback)
    }

    /// How the operation begins.
    pub open spec fn begin(plot: PlotId, trusts: Vec<PlotId>) -> Step<
        TrustReplace,
        Result<Result<(), PlotTrustSetError>, StoreFault>,
    > {
        Step::Next(TrustReplace::Opening { plot, trusts }, Command::Begin)
    }

    /// How the operation goes on after a reply.
    pub open spec fn step(self, reply: Reply) -> Step<
        TrustReplace,
        Result<Result<(), PlotTrustSetError>, StoreFault>,
    > {
        match self {
            TrustReplace::Opening { plot, trusts } => match reply {
                Reply::Done => Step::Next(
                    TrustReplace::Checking { plot, trusts },
                    Command::PlotPresent(plot),
                ),
                _ => Step::Done(Err(Self::fault_of(reply))),
            },
            TrustReplace::Checking { plot, trusts } => match reply {
                Reply::Present(true) => Step::Next(
                    TrustReplace::Deleting { plot, trusts },
                    Command::DeleteTrust(plot),
                ),
                Reply::Present(false) => Self::close(Ok(Err(PlotTrustSetError::PlotNotFound))),
                _ => Self::close(Err(Self::fault_of(reply))),
            },
            TrustReplace::Deleting { plot, trusts } => match reply {
                Reply::Done => Step::Next(
                    TrustReplace::Inserting { plot },
                    Command::InsertTrust(plot, TrustVec(trusts)),
                ),
                _ => Self::close(Err(Self::fault_of(reply))),
            },
            TrustReplace::Inserting { plot } => match reply {
                Reply::Done => Step::Next(TrustReplace::Committing { plot }, Command::Commit),
                _ => Self::close(Err(Self::fault_of(reply))),
            },
            TrustReplace::Committing { plot } => match reply {
                Reply::Done => Step::Next(
                    TrustReplace::Clearing,
                    Command::CacheDel(CacheKey::Trust(plot)),
                ),
                _ => Self::close(Err(Self::fault_of(reply))),
            },
            TrustReplace::Clearing => match reply {
                Reply::Done => Step::Done(Ok(Ok(()))),
                _ => Step::Done(Err(Self::fault_of(reply))),
            },
            TrustReplace::Closing(outcome) => Step::Done(outcome),
        }
    }

    fn fault(reply: &Reply) -> (r: StoreFault)
        ensures
            r == Self::fault_of(*reply),
    {
        match reply {
            Reply::Failed => StoreFault::Backend,
            _ => StoreFault::Protocol,
        }
    }

    /// Begins the operation.
    pub fn start(plot: PlotId, trusts: Vec<PlotId>) -> (r: Step<
        TrustReplace,
        Result<Result<(), PlotTrustSetError>, StoreFault>,
    >)
        ensures
            r == TrustReplace::begin(plot, trusts),
    {
        Step::Next(TrustReplace::Opening { plot, trusts }, Command::Begin)
    }

    /// Takes the reply to the last command and says how the operation goes on.
    pub fn resume(self, reply: Reply) -> (r: Step<
        TrustReplace,
        Result<Result<(), PlotTrustSetError>, StoreFault>,
    >)
        ensures
            r == self.step(reply),
    {
        match self {
            TrustReplace::Opening { plot, trusts } => match reply {
                Reply::Done => Step::Next(
                    TrustReplace::Checking { plot, trusts },
                    Command::PlotPresent(plot),
                ),
                _ => Step::Done(Err(Self::fault(&reply))),
            },
            TrustReplace::Checking { plot, trusts } => match reply {
                Reply::Present(true) => Step::Next(
                    TrustReplace::Deleting { plot, trusts },
                    Command::DeleteTrust(plot),
                ),
                Reply::Present(false) => Step::Next(
                    TrustReplace::Closing(Ok(Err(PlotTrustSetError::PlotNotFound))),
                    Command::Rollback,
                ),
                _ => Step::Next(
                    TrustReplace::Closing(Err(Self::fault(&reply))),
                    Command::Rollback,
                ),
            },
            TrustReplace::Deleting { plot, trusts } => match reply {
                Reply::Done => Step::Next(
                    TrustReplace::Inserting { plot },
                    Command::InsertTrust(plot, TrustVec(trusts)),
                ),
                _ => Step::Next(
                    TrustReplace::Closing(Err(Self::fault(&reply))),
                    Command::Rollback,
                ),
            },
            TrustReplace::Inserting { plot } => match reply {
                Reply::Done => Step::Next(TrustReplace::Committing { plot }, Command::Commit),
                _ => Step::Next(
                    TrustReplace::Closing(Err(Self::fault(&reply))),
                    Command::Rollback,
                ),
            },
            TrustReplace::Committing { plot } => match reply {
                Reply::Done => Step::Next(
                    TrustReplace::Clearing,
                    Command::CacheDel(CacheKey::Trust(plot)),
                ),
                _ => Step::Next(
                    TrustReplace::Closing(Err(Self::fault(&reply))),
                    Command::Rollback,
                ),
            },
            TrustReplace::Clearing => match reply {
                Reply::Done => Step::Done(Ok(Ok(()))),
                _ => Step::Done(Err(Self::fault(&reply))),
            },
            TrustReplace::Closing(outcome) => Step::Done(outcome),
        }
    }
}

/// The cache entry of a trust list is removed only once the new list is
/// committed: a replacement that is refused, or that breaks off before or
/// at the commit, never asks for it.
pub proof fn lemma_replace_clears_after_commit(state: TrustReplace, reply: Reply)
    ensures
        (state.step(reply) matches Step::Next(_, Command::CacheDel(_))) <==> (state is Committing
            && reply is Done),
        !(state.step(reply) matches Step::Settled(_, _)),
        !(state.step(reply) matches Step::Next(_, Command::CacheSet(_, _))),
{
}

impl Store {
    /// Begins reading the trust list of a plot.
    pub fn fetch_plot_trust(&self, plot: PlotId) -> (r: Step<
        TrustLookup,
        Result<Vec<PlotId>, StoreFault>,
    >)
        ensures
            listed(r) == TrustLookupView::begin(plot),
    {
        TrustLookup::start(plot)
    }

    /// Begins replacing the trust list of a plot.
    pub fn set_plot_trust(&self, plot_id: PlotId, trusts: Vec<PlotId>) -> (r: Step<
        TrustReplace,
        Result<Result<(), PlotTrustSetError>, StoreFault>,
    >)
        ensures
            r == TrustReplace::begin(plot_id, trusts),
    {
        TrustReplace::start(plot_id, trusts)
    }
}

} // verus!
