//! The trust interface: reading and replacing trust lists, and the
//! admission of a transfer from another instance.

use crate::auth::{Auth, ExternalServerAuth, Plot};
use crate::instance::SendInstance;
use crate::keys::PublicKey;
use crate::store::baton::{
    listed, PlotTrustSetError, TrustLookup, TrustLookupView, TrustReplace,
};
use crate::store::instance::{PlotExists, PlotLookup};
use crate::store::{CacheKey, Command, Reply, Step, Store, StoreFault};
use crate::PlotId;
use vstd::prelude::*;

verus! {

/// The trust interface of an instance.
pub struct BatonApi {
    pub store: Store,
}

/// How the replacement of a trust list ends.
#[derive(Debug, PartialEq, Eq)]
pub enum SetTrustedResult {
    PlotNotFound,
    /// These plots are not registered; nothing was changed.
    OtherPlotNotRegistered(Vec<PlotId>),
    Success,
}

impl SetTrustedResult {
    /// The HTTP status that the answer is sent with.
    pub fn status(&self) -> (r: u16)
        ensures
            r == match self {
                SetTrustedResult::PlotNotFound => 404u16,
                SetTrustedResult::OtherPlotNotRegistered(_) => 409u16,
                SetTrustedResult::Success => 200u16,
            },
    {
        match self {
            SetTrustedResult::PlotNotFound => 404,
            SetTrustedResult::OtherPlotNotRegistered(_) => 409,
            SetTrustedResult::Success => 200,
        }
    }
}

/// How a transfer from another instance is received.
#[derive(Clone, Copy, PartialEq, Eq, Structural, Debug)]
pub enum TransferSendResult {
    NotTrusted,
    Accepted,
}

impl TransferSendResult {
    /// The HTTP status that the answer is sent with.
    pub fn status(&self) -> (r: u16)
        ensures
            r == match self {
                TransferSendResult::NotTrusted => 409u16,
                TransferSendResult::Accepted => 200u16,
            },
    {
        match self {
            TransferSendResult::NotTrusted => 409,
            TransferSendResult::Accepted => 200,
        }
    }
}

/// What the replacement of a trust list makes of the outcome of its write.
pub open spec fn trusted_set(outcome: Result<Result<(), PlotTrustSetError>, StoreFault>) -> Result<
    SetTrustedSeen,
    StoreFault,
> {
    match outcome {
        Ok(Ok(())) => Ok(SetTrustedSeen::Success),
        Ok(Err(PlotTrustSetError::PlotNotFound)) => Ok(SetTrustedSeen::PlotNotFound),
        Err(e) => Err(e),
    }
}

/// How the replacement of a trust list ends, with the plots that are not
/// registered as a sequence.
pub enum SetTrustedSeen {
    PlotNotFound,
    OtherPlotNotRegistered(Seq<PlotId>),
    Success,
}

impl View for SetTrustedResult {
    type V = SetTrustedSeen;

    open spec fn view(&self) -> SetTrustedSeen {
        match self {
            SetTrustedResult::PlotNotFound => SetTrustedSeen::PlotNotFound,
            SetTrustedResult::OtherPlotNotRegistered(missing) => SetTrustedSeen::OtherPlotNotRegistered(
                missing@,
            ),
            SetTrustedResult::Success => SetTrustedSeen::Success,
        }
    }
}

/// Replacing the trust list of the caller's plot: each of the plots to be
/// trusted is looked for, one after the other, and only where all of them
/// are registered is the list replaced. Where one is not, the request ends
/// with the plots that are not, and nothing is written.
#[derive(Debug, PartialEq, Eq)]
pub enum SetTrusted {
    /// The plot at place `next` is being looked for.
    Checking { plot: PlotId, trusted: Vec<PlotId>, next: usize, missing: Vec<PlotId>, lookup: PlotExists },
    /// The plot at place `next` was looked for, and what the database gave
    /// is being put into the cache; whether that fails changes nothing.
    Recording {
        plot: PlotId,
        trusted: Vec<PlotId>,
        next: usize,
        missing: Vec<PlotId>,
        there: bool,
        current: PublicKey,
    },
    /// The list is being replaced.
    Writing { write: TrustReplace },
}

/// A request to replace a trust list, with the plots found missing so far
/// as a sequence.
pub enum SetTrustedView {
    Checking { plot: PlotId, trusted: Vec<PlotId>, next: usize, missing: Seq<PlotId>, lookup: PlotExists },
    Recording {
        plot: PlotId,
        trusted: Vec<PlotId>,
        next: usize,
        missing: Seq<PlotId>,
        there: bool,
        current: PublicKey,
    },
    Writing { write: TrustReplace },
}

impl View for SetTrusted {
    type V = SetTrustedView;

    open spec fn view(&self) -> SetTrustedView {
        match self {
            SetTrusted::Checking { plot, trusted, next, missing, lookup } => SetTrustedView::Checking {
                plot: *plot,
                trusted: *trusted,
                next: *next,
                missing: missing@,
                lookup: *lookup,
            },
            SetTrusted::Recording { plot, trusted, next, missing, there, current } => SetTrustedView::Recording {
                plot: *plot,
                trusted: *trusted,
                next: *next,
                missing: missing@,
                there: *there,
                current: *current,
            },
            SetTrusted::Writing { write } => SetTrustedView::Writing { write: *write },
        }
    }
}

/// A step of the request, with the plots found missing as a sequence.
pub open spec fn shown(step: Step<SetTrusted, Result<SetTrustedResult, StoreFault>>) -> Step<
    SetTrustedView,
    Result<SetTrustedSeen, StoreFault>,
> {
    match step {
        Step::Next(state, command) => Step::Next(state@, command),
        Step::Done(Ok(result)) => Step::Done(Ok(result@)),
        Step::Done(Err(e)) => Step::Done(Err(e)),
        Step::Settled(Ok(result), command) => Step::Settled(Ok(result@), command),
        Step::Settled(Err(e), command) => Step::Settled(Err(e), command),
    }
}

/// The key of this instance, as a reading carries it.
pub open spec fn current_of(lookup: PlotLookup) -> PublicKey {
    match lookup {
        PlotLookup::AwaitCache { current, .. } => current,
        PlotLookup::AwaitRow { current, .. } => current,
    }
}

impl SetTrustedView {
    /// The request while, and after, the list is replaced.
    pub open spec fn writing(
        step: Step<TrustReplace, Result<Result<(), PlotTrustSetError>, StoreFault>>,
    ) -> Step<SetTrustedView, Result<SetTrustedSeen, StoreFault>> {
        match step {
            Step::Next(write, command) => Step::Next(SetTrustedView::Writing { write }, command),
            Step::Done(outcome) => Step::Done(trusted_set(outcome)),
            Step::Settled(outcome, command) => Step::Settled(trusted_set(outcome), command),
        }
    }

    /// Goes on with the plot at place `next`; where there is none left,
    /// the list is replaced if no plot is missing, and the request ends with
    /// the missing ones if any is.
    pub open spec fn advance(
        plot: PlotId,
        trusted: Vec<PlotId>,
        next: usize,
        missing: Seq<PlotId>,
        current: PublicKey,
    ) -> Step<SetTrustedView, Result<SetTrustedSeen, StoreFault>> {
        if next >= trusted@.len() {
            if missing.len() == 0 {
                Self::writing(TrustReplace::begin(plot, trusted))
            } else {
                Step::Done(Ok(SetTrustedSeen::OtherPlotNotRegistered(missing)))
            }
        } else {
            Step::Next(
                SetTrustedView::Checking {
                    plot,
                    trusted,
                    next,
                    missing,
                    lookup: PlotExists {
                        lookup: PlotLookup::AwaitCache { plot: trusted@[next as int], current },
                    },
                },
                Command::CacheGet(CacheKey::Plot(trusted@[next as int])),
            )
        }
    }

    /// Notes whether the plot at place `next` is registered, and goes on.
    pub open spec fn record(
        plot: PlotId,
        trusted: Vec<PlotId>,
        next: usize,
        missing: Seq<PlotId>,
        there: bool,
        current: PublicKey,
    ) -> Step<SetTrustedView, Result<SetTrustedSeen, StoreFault>> {
        if next >= trusted@.len() {
            Self::advance(plot, trusted, next, missing, current)
        } else if there {
            Self::advance(plot, trusted, (next + 1) as usize, missing, current)
        } else {
            Self::advance(
                plot,
                trusted,
                (next + 1) as usize,
                missing.push(trusted@[next as int]),
                current,
            )
        }
    }

    /// How the operation begins.
    pub open spec fn begin(plot: PlotId, trusted: Vec<PlotId>, current: PublicKey) -> Step<
        SetTrustedView,
        Result<SetTrustedSeen, StoreFault>,
    > {
        Self::advance(plot, trusted, 0, Seq::empty(), current)
    }

    /// How the operation goes on after a reply.
    pub open spec fn step(self, reply: Reply) -> Step<
        SetTrustedView,
        Result<SetTrustedSeen, StoreFault>,
    > {
        match self {
            SetTrustedView::Checking { plot, trusted, next, missing, lookup } => match lookup.step(
                reply,
            ) {
                Step::Next(lookup, command) => Step::Next(
                    SetTrustedView::Checking { plot, trusted, next, missing, lookup },
                    command,
                ),
                Step::Done(Ok(there)) => Self::record(
                    plot,
                    trusted,
                    next,
                    missing,
                    there,
                    current_of(lookup.lookup),
                ),
                Step::Settled(Ok(there), command) => Step::Next(
                    SetTrustedView::Recording {
                        plot,
                        trusted,
                        next,
                        missing,
                        there,
                        current: current_of(lookup.lookup),
                    },
                    command,
                ),
                Step::Done(Err(e)) => Step::Done(Err(e)),
                Step::Settled(Err(e), _) => Step::Done(Err(e)),
            },
            SetTrustedView::Recording { plot, trusted, next, missing, there, current } => Self::record(
                plot,
                trusted,
                next,
                missing,
                there,
                current,
            ),
            SetTrustedView::Writing { write } => Self::writing(write.step(reply)),
        }
    }
}

impl SetTrusted {
    fn outcome(outcome: Result<Result<(), PlotTrustSetError>, StoreFault>) -> (r: Result<
        SetTrustedResult,
        StoreFault,
    >)
        ensures
            match r {
                Ok(result) => trusted_set(outcome) == Ok::<SetTrustedSeen, StoreFault>(result@),
                Err(e) => trusted_set(outcome) == Err::<SetTrustedSeen, StoreFault>(e),
            },
    {
        match outcome {
            Ok(Ok(())) => Ok(SetTrustedResult::Success),
            Ok(Err(PlotTrustSetError::PlotNotFound)) => Ok(SetTrustedResult::PlotNotFound),
            Err(e) => Err(e),
        }
    }

    fn write(step: Step<TrustReplace, Result<Result<(), PlotTrustSetError>, StoreFault>>) -> (r:
        Step<SetTrusted, Result<SetTrustedResult, StoreFault>>)
        ensures
            shown(r) == SetTrustedView::writing(step),
    {
        match step {
            Step::Next(write, command) => Step::Next(SetTrusted::Writing { write }, command),
            Step::Done(outcome) => Step::Done(Self::outcome(outcome)),
            Step::Settled(outcome, command) => Step::Settled(Self::outcome(outcome), command),
        }
    }

    fn advance(
        plot: PlotId,
        trusted: Vec<PlotId>,
        next: usize,
        missing: Vec<PlotId>,
        current: PublicKey,
    ) -> (r: Step<SetTrusted, Result<SetTrustedResult, StoreFault>>)
        ensures
            shown(r) == SetTrustedView::advance(plot, trusted, next, missing@, current),
    {
        if next >= trusted.len() {
            if missing.len() == 0 {
                Self::write(TrustReplace::start(plot, trusted))
            } else {
                Step::Done(Ok(SetTrustedResult::OtherPlotNotRegistered(missing)))
            }
        } else {
            let target = trusted[next];
            Step::Next(
                SetTrusted::Checking {
                    plot,
                    trusted,
                    next,
                    missing,
                    lookup: PlotExists { lookup: PlotLookup::AwaitCache { plot: target, current } },
                },
                Command::CacheGet(CacheKey::Plot(target)),
            )
        }
    }

    fn record(
        plot: PlotId,
        trusted: Vec<PlotId>,
        next: usize,
        missing: Vec<PlotId>,
        there: bool,
        current: PublicKey,
    ) -> (r: Step<SetTrusted, Result<SetTrustedResult, StoreFault>>)
        ensures
            shown(r) == SetTrustedView::record(plot, trusted, next, missing@, there, current),
    {
        if next >= trusted.len() {
            Self::advance(plot, trusted, next, missing, current)
        } else if there {
            Self::advance(plot, trusted, next + 1, missing, current)
        } else {
            let mut missing = missing;
            missing.push(trusted[next]);
            Self::advance(plot, trusted, next + 1, missing, current)
        }
    }

    fn current(lookup: &PlotLookup) -> (r: PublicKey)
        ensures
            r == current_of(*lookup),
    {
        match lookup {
            PlotLookup::AwaitCache { current, .. } => *current,
            PlotLookup::AwaitRow { current, .. } => *current,
        }
    }

    /// Takes the reply to the last command and says how the operation goes on.
    pub fn resume(self, reply: Reply) -> (r: Step<SetTrusted, Result<SetTrustedResult, StoreFault>>)
        ensures
            shown(r) == self@.step(reply),
    {
        match self {
            SetTrusted::Checking { plot, trusted, next, missing, lookup } => {
                let current = Self::current(&lookup.lookup);
                match lookup.resume(reply) {
                    Step::Next(lookup, command) => Step::Next(
                        SetTrusted::Checking { plot, trusted, next, missing, lookup },
                        command,
                    ),
                    Step::Done(Ok(there)) => Self::record(plot, trusted, next, missing, there, current),
                    Step::Settled(Ok(there), command) => Step::Next(
                        SetTrusted::Recording { plot, trusted, next, missing, there, current },
                        command,
                    ),
                    Step::Done(Err(e)) => Step::Done(Err(e)),
                    Step::Settled(Err(e), _) => Step::Done(Err(e)),
                }
            },
            SetTrusted::Recording { plot, trusted, next, missing, there, current } => Self::record(
                plot,
                trusted,
                next,
                missing,
                there,
                current,
            ),
            SetTrusted::Writing { write } => Self::write(write.resume(reply)),
        }
    }
}

/// Whether the instance with the key `caller` may hand over a transfer in
/// the name of the plot that was read: it must be the instance that the
/// plot lives on.
pub open spec fn transfer_verdict(caller: PublicKey, found: Result<Option<Plot>, StoreFault>)
    -> Result<TransferSendResult, StoreFault> {
    match found {
        Ok(Some(plot)) => if caller@ == plot.instance.key@ {
            Ok(TransferSendResult::Accepted)
        } else {
            Ok(TransferSendResult::NotTrusted)
        },
        Ok(None) => Err(StoreFault::Inconsistent),
        Err(e) => Err(e),
    }
}

/// The admission of a transfer: the trust list of the plot it goes to is
/// read, and where the plot it claims to come from is on the list, that
/// plot is read and the caller held against the plot's instance.
#[derive(Debug, PartialEq, Eq)]
pub enum TransferGate {
    Trusting { caller: PublicKey, from: PlotId, current: PublicKey, list: TrustLookup },
    Reading { caller: PublicKey, lookup: PlotLookup },
}

/// The admission of a transfer, with the list that was read as a sequence.
pub enum TransferGateView {
    Trusting { caller: PublicKey, from: PlotId, current: PublicKey, list: TrustLookupView },
    Reading { caller: PublicKey, lookup: PlotLookup },
}

impl View for TransferGate {
    type V = TransferGateView;

    open spec fn view(&self) -> TransferGateView {
        match self {
            TransferGate::Trusting { caller, from, current, list } => TransferGateView::Trusting {
                caller: *caller,
                from: *from,
                current: *current,
                list: list@,
            },
            TransferGate::Reading { caller, lookup } => TransferGateView::Reading {
                caller: *caller,
                lookup: *lookup,
            },
        }
    }
}

/// A step of the admission, with the list as a sequence.
pub open spec fn admitted(step: Step<TransferGate, Result<TransferSendResult, StoreFault>>) -> Step<
    TransferGateView,
    Result<TransferSendResult, StoreFault>,
> {
    match step {
        Step::Next(state, command) => Step::Next(state@, command),
        Step::Done(result) => Step::Done(result),
        Step::Settled(result, command) => Step::Settled(result, command),
    }
}

impl TransferGateView {
    /// The admission while, and after, the source plot is read.
    pub open spec fn reading(
        caller: PublicKey,
        step: Step<PlotLookup, Result<Option<Plot>, StoreFault>>,
    ) -> Step<TransferGateView, Result<TransferSendResult, StoreFault>> {
        match step {
            Step::Next(lookup, command) => Step::Next(
                TransferGateView::Reading { caller, lookup },
                command,
            ),
            Step::Done(found) => Step::Done(transfer_verdict(caller, found)),
            Step::Settled(found, command) => Step::Settled(
                transfer_verdict(caller, found),
                command,
            ),
        }
    }

    /// How the admission goes on once the trust list is read: a source
    /// that is not on the list is turned away before it is read.
    pub open spec fn trusted(caller: PublicKey, from: PlotId, current: PublicKey, list: Seq<PlotId>)
        -> Step<TransferGateView, Result<TransferSendResult, StoreFault>> {
        if list.contains(from) {
            Self::reading(caller, PlotLookup::begin(from, current))
        } else {
            Step::Done(Ok(TransferSendResult::NotTrusted))
        }
    }

    /// The admission while, and after, the trust list is read.
    pub open spec fn trusting(
        caller: PublicKey,
        from: PlotId,
        current: PublicKey,
        step: Step<TrustLookupView, Result<Seq<PlotId>, StoreFault>>,
    ) -> Step<TransferGateView, Result<TransferSendResult, StoreFault>> {
        match step {
            Step::Next(list, command) => Step::Next(
                TransferGateView::Trusting { caller, from, current, list },
                command,
            ),
            Step::Done(Ok(list)) => Self::trusted(caller, from, current, list),
            Step::Settled(Ok(list), _) => Self::trusted(caller, from, current, list),
            Step::Done(Err(e)) => Step::Done(Err(e)),
            Step::Settled(Err(e), _) => Step::Done(Err(e)),
        }
    }

    /// How the admission begins: a caller whose claim is no instance is
    /// turned away before anything is read.
    pub open spec fn begin(own: PublicKey, from: PlotId, to: PlotId, claim: SendInstance) -> Step<
        TransferGateView,
        Result<TransferSendResult, StoreFault>,
    > {
        match claim.parsing() {
            Err(_) => Step::Done(Ok(TransferSendResult::NotTrusted)),
            Ok(caller) => Self::trusting(caller.key, from, own, TrustLookupView::begin(to)),
        }
    }

    /// How the operation goes on after a reply.
    pub open spec fn step(self, reply: Reply) -> Step<
        TransferGateView,
        Result<TransferSendResult, StoreFault>,
    > {
        match self {
            TransferGateView::Trusting { caller, from, current, list } => Self::trusting(
                caller,
                from,
                current,
                list.step(reply),
            ),
            TransferGateView::Reading { caller, lookup } => Self::reading(
                caller,
                lookup.step(reply),
            ),
        }
    }
}

impl TransferGate {
    fn verdict(caller: PublicKey, found: Result<Option<Plot>, StoreFault>) -> (r: Result<
        TransferSendResult,
        StoreFault,
    >)
        ensures
            r == transfer_verdict(caller, found),
    {
        match found {
            Ok(Some(plot)) => {
                if caller.same(&plot.instance.key) {
                    Ok(TransferSendResult::Accepted)
                } else {
                    Ok(TransferSendResult::NotTrusted)
                }
            },
            Ok(None) => Err(StoreFault::Inconsistent),
            Err(e) => Err(e),
        }
    }

    fn read(caller: PublicKey, step: Step<PlotLookup, Result<Option<Plot>, StoreFault>>) -> (r:
        Step<TransferGate, Result<TransferSendResult, StoreFault>>)
        ensures
            admitted(r) == TransferGateView::reading(caller, step),
    {
        match step {
            Step::Next(lookup, command) => Step::Next(
                TransferGate::Reading { caller, lookup },
                command,
            ),
            Step::Done(found) => Step::Done(Self::verdict(caller, found)),
            Step::Settled(found, command) => Step::Settled(Self::verdict(caller, found), command),
        }
    }

    fn trusted(caller: PublicKey, from: PlotId, current: PublicKey, list: &Vec<PlotId>) -> (r: Step<
        TransferGate,
        Result<TransferSendResult, StoreFault>,
    >)
        ensures
            admitted(r) == TransferGateView::trusted(caller, from, current, list@),
    {
        if list_contains(list, from) {
            Self::read(caller, PlotLookup::start(from, current))
        } else {
            Step::Done(Ok(TransferSendResult::NotTrusted))
        }
    }

    fn trust(
        caller: PublicKey,
        from: PlotId,
        current: PublicKey,
        step: Step<TrustLookup, Result<Vec<PlotId>, StoreFault>>,
    ) -> (r: Step<TransferGate, Result<TransferSendResult, StoreFault>>)
        ensures
            admitted(r) == TransferGateView::trusting(caller, from, current, listed(step)),
    {
        match step {
            Step::Next(list, command) => Step::Next(
                TransferGate::Trusting { caller, from, current, list },
                command,
            ),
            Step::Done(Ok(list)) => Self::trusted(caller, from, current, &list),
            Step::Settled(Ok(list), _) => Self::trusted(caller, from, current, &list),
            Step::Done(Err(e)) => Step::Done(Err(e)),
            Step::Settled(Err(e), _) => Step::Done(Err(e)),
        }
    }

    /// Takes the reply to the last command and says how the operation goes on.
    pub fn resume(self, reply: Reply) -> (r: Step<
        TransferGate,
        Result<TransferSendResult, StoreFault>,
    >)
        ensures
            admitted(r) == self@.step(reply),
    {
        match self {
            TransferGate::Trusting { caller, from, current, list } => Self::trust(
                caller,
                from,
                current,
                list.resume(reply),
            ),
            TransferGate::Reading { caller, lookup } => Self::read(caller, lookup.resume(reply)),
        }
    }
}

/// What a step of an admission ends with, if it ends.
pub open spec fn ended(step: Step<TransferGateView, Result<TransferSendResult, StoreFault>>)
    -> Option<Result<TransferSendResult, StoreFault>> {
    match step {
        Step::Next(_, _) => None,
        Step::Done(result) => Some(result),
        Step::Settled(result, _) => Some(result),
    }
}

/// A reading has ended with a plot that lives on the instance with the key
/// `who`.
pub open spec fn found_on(step: Step<PlotLookup, Result<Option<Plot>, StoreFault>>, who: PublicKey)
    -> bool {
    match step {
        Step::Done(Ok(Some(plot))) => plot.instance.key@ == who@,
        Step::Settled(Ok(Some(plot)), _) => plot.instance.key@ == who@,
        _ => false,
    }
}

/// A transfer is accepted only on both grounds: the plot it claims to come
/// from is read only once it was found on the trust list, and the transfer
/// is accepted only once that plot was read and lives on the instance of
/// the caller.
pub proof fn lemma_admission_needs_both(
    state: TransferGateView,
    reply: Reply,
    caller: PublicKey,
    from: PlotId,
    current: PublicKey,
    list: Seq<PlotId>,
)
    ensures
        !list.contains(from) ==> TransferGateView::trusted(caller, from, current, list)
            == Step::<TransferGateView, Result<TransferSendResult, StoreFault>>::Done(
            Ok(TransferSendResult::NotTrusted),
        ),
        state is Trusting ==> ended(state.step(reply)) != Some(
            Ok::<TransferSendResult, StoreFault>(TransferSendResult::Accepted),
        ),
        ended(state.step(reply)) == Some(
            Ok::<TransferSendResult, StoreFault>(TransferSendResult::Accepted),
        ) ==> (state matches TransferGateView::Reading { caller: who, lookup } && found_on(
            lookup.step(reply),
            who,
        )),
{
}

/// Whether `plot` is in the list.
pub fn list_contains(list: &Vec<PlotId>, plot: PlotId) -> (r: bool)
    ensures
        r == list@.contains(plot),
{
    let mut i: usize = 0;
    while i < list.len()
        invariant
            i <= list.len(),
            forall|j: int| 0 <= j < i ==> list@[j] != plot,
        decreases list.len() - i,
    {
        if list[i] == plot {
            return true;
        }
        i += 1;
    }
    false
}

impl BatonApi {
    /// Begins reading the trust list of the caller's plot.
    pub fn get_trusted(&self, auth: Auth) -> (r: Step<TrustLookup, Result<Vec<PlotId>, StoreFault>>)
        ensures
            listed(r) == TrustLookupView::begin(auth.plot_id()),
    {
        self.store.fetch_plot_trust(auth.plot().plot_id)
    }

    /// Begins replacing the trust list of the caller's plot by `trusted`.
    pub fn set_trusted(&self, auth: Auth, trusted: Vec<PlotId>) -> (r: Step<
        SetTrusted,
        Result<SetTrustedResult, StoreFault>,
    >)
        ensures
            shown(r) == SetTrustedView::begin(auth.plot_id(), trusted, self.store.public_key),
    {
        SetTrusted::advance(
            auth.plot().plot_id,
            trusted,
            0,
            Vec::new(),
            self.store.public_key,
        )
    }

    /// Begins the admission of a transfer that claims to come from the plot
    /// `from_plot_id` and goes to the plot `to_plot_id`.
    pub fn transfer_recv(&self, from_plot_id: PlotId, to_plot_id: PlotId, auth: &ExternalServerAuth)
        -> (r: Step<TransferGate, Result<TransferSendResult, StoreFault>>)
        ensures
            admitted(r) == TransferGateView::begin(
                self.store.public_key,
                from_plot_id,
                to_plot_id,
                auth.0.sub,
            ),
    {
        match auth.0.sub.parse() {
            Err(_) => Step::Done(Ok(TransferSendResult::NotTrusted)),
            Ok(caller) => TransferGate::trust(
                caller.key,
                from_plot_id,
                self.store.public_key,
                self.store.fetch_plot_trust(to_plot_id),
            ),
        }
    }
}

} // verus!
