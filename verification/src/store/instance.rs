//! The plot directory: reading a plot through the cache, registering a
//! plot, and assigning a plot to another instance.

use crate::auth::Plot;
use crate::instance::{ExternalDomain, Instance, InstanceDomain};
use crate::keys::PublicKey;
use crate::store::{CacheKey, CacheValue, Command, PlotRow, Reply, Step, Store, StoreFault};
use crate::PlotId;
use vstd::prelude::*;

verus! {

/// The owner and the domain of a plot on another instance.
#[derive(Debug, PartialEq, Eq)]
pub struct PlotValue {
    pub owner: u128,
    pub instance: ExternalDomain,
}

/// The plot that a stored row describes. A row without a key is a plot of
/// the current instance, whose key is `current`.
pub open spec fn row_plot(row: PlotRow, current: PublicKey) -> Result<Plot, StoreFault> {
    match row.public_key {
        Some(key) => match Instance::of_row(key, row.domain) {
            Ok(instance) => Ok(Plot { plot_id: row.id, owner: row.owner_uuid, instance }),
            Err(e) => Err(StoreFault::Instance(e)),
        },
        None => Ok(
            Plot {
                plot_id: row.id,
                owner: row.owner_uuid,
                instance: Instance { key: current, domain: InstanceDomain::Current },
            },
        ),
    }
}

/// Makes a plot of a stored row.
pub fn resolve_row(row: PlotRow, current: PublicKey) -> (r: Result<Plot, StoreFault>)
    ensures
        r == row_plot(row, current),
{
    match row.public_key {
        Some(key) => match Instance::from_row(key, row.domain) {
            Ok(instance) => Ok(Plot { plot_id: row.id, owner: row.owner_uuid, instance }),
            Err(e) => Err(StoreFault::Instance(e)),
        },
        None => Ok(
            Plot {
                plot_id: row.id,
                owner: row.owner_uuid,
                instance: Instance { key: current, domain: InstanceDomain::Current },
            },
        ),
    }
}

/// Reading a plot: first the cache, and the database only where the cache
/// has nothing. What the database gave is put into the cache behind the
/// answer.
#[derive(Clone, Copy, Debug, PartialEq, Eq)]
pub enum PlotLookup {
    AwaitCache { plot: PlotId, current: PublicKey },
    AwaitRow { plot: PlotId, current: PublicKey },
}

impl PlotLookup {
    /// How the reading of `plot` begins.
    pub open spec fn begin(plot: PlotId, current: PublicKey) -> Step<
        PlotLookup,
        Result<Option<Plot>, StoreFault>,
    > {
        Step::Next(PlotLookup::AwaitCache { plot, current }, Command::CacheGet(CacheKey::Plot(plot)))
    }

    /// How the reading goes on after a reply.
    pub open spec fn step(self, reply: Reply) -> Step<PlotLookup, Result<Option<Plot>, StoreFault>> {
        match self {
            PlotLookup::AwaitCache { plot, current } => match reply {
                Reply::Cached(Some(CacheValue::Plot(found))) => Step::Done(Ok(Some(found))),
                Reply::Cached(None) => Step::Next(
                    PlotLookup::AwaitRow { plot, current },
                    Command::SelectPlot(plot),
                ),
                Reply::Failed => Step::Done(Err(StoreFault::Backend)),
                _ => Step::Done(Err(StoreFault::Protocol)),
            },
            PlotLookup::AwaitRow { plot, current } => match reply {
                Reply::Row(Some(row)) => match row_plot(row, current) {
                    Ok(found) => Step::Settled(
                        Ok(Some(found)),
                        Command::CacheSet(CacheKey::Plot(plot), CacheValue::Plot(found)),
                    ),
                    Err(e) => Step::Done(Err(e)),
                },
                Reply::Row(None) => Step::Done(Ok(None)),
                Reply::Failed => Step::Done(Err(StoreFault::Backend)),
                _ => Step::Done(Err(StoreFault::Protocol)),
            },
        }
    }

    /// Begins reading `plot` on the instance with the key `current`.
    pub fn start(plot: PlotId, current: PublicKey) -> (r: Step<
        PlotLookup,
        Result<Option<Plot>, StoreFault>,
    >)
        ensures
            r == PlotLookup::begin(plot, current),
    {
        Step::Next(PlotLookup::AwaitCache { plot, current }, Command::CacheGet(CacheKey::Plot(plot)))
    }

    /// Takes the reply to the last command and says how the operation goes on.
    pub fn resume(self, reply: Reply) -> (r: Step<PlotLookup, Result<Option<Plot>, StoreFault>>)
        ensures
            r == self.step(reply),
    {
        match self {
            PlotLookup::AwaitCache { plot, current } => match reply {
                Reply::Cached(Some(CacheValue::Plot(found))) => Step::Done(Ok(Some(found))),
                Reply::Cached(None) => Step::Next(
                    PlotLookup::AwaitRow { plot, current },
                    Command::SelectPlot(plot),
                ),
                Reply::Failed => Step::Done(Err(StoreFault::Backend)),
                _ => Step::Done(Err(StoreFault::Protocol)),
            },
            PlotLookup::AwaitRow { plot, current } => match reply {
                Reply::Row(Some(row)) => match resolve_row(row, current) {
                    Ok(found) => {
                        let copy = found.clone();
                        Step::Settled(
                            Ok(Some(found)),
                            Command::CacheSet(CacheKey::Plot(plot), CacheValue::Plot(copy)),
                        )
                    },
                    Err(e) => Step::Done(Err(e)),
                },
                Reply::Row(None) => Step::Done(Ok(None)),
                Reply::Failed => Step::Done(Err(StoreFault::Backend)),
                _ => Step::Done(Err(StoreFault::Protocol)),
            },
        }
    }
}

/// Asking whether a plot is registered: any entry of the cache under the
/// plot's number says yes; without one the plot is read from the database.
#[derive(Clone, Copy, Debug, PartialEq, Eq)]
pub struct PlotExists {
    pub lookup: PlotLookup,
}

/// Whether a reading found a plot.
pub open spec fn found_any(result: Result<Option<Plot>, StoreFault>) -> Result<bool, StoreFault> {
    match result {
        Ok(found) => Ok(found is Some),
        Err(e) => Err(e),
    }
}

impl PlotExists {
    /// How the operation begins.
    pub open spec fn begin(plot: PlotId, current: PublicKey) -> Step<
        PlotExists,
        Result<bool, StoreFault>,
    > {
        Step::Next(
            PlotExists { lookup: PlotLookup::AwaitCache { plot, current } },
            Command::CacheGet(CacheKey::Plot(plot)),
        )
    }

    /// How the operation goes on after a reply.
    pub open spec fn step(self, reply: Reply) -> Step<PlotExists, Result<bool, StoreFault>> {
        if self.lookup is AwaitCache && reply matches Reply::Cached(Some(_)) {
            Step::Done(Ok(true))
        } else {
            match self.lookup.step(reply) {
                Step::Next(lookup, command) => Step::Next(PlotExists { lookup }, command),
                Step::Done(result) => Step::Done(found_any(result)),
                Step::Settled(result, command) => Step::Settled(found_any(result), command),
            }
        }
    }

    /// Takes the reply to the last command and says how the operation goes on.
    pub fn resume(self, reply: Reply) -> (r: Step<PlotExists, Result<bool, StoreFault>>)
        ensures
            r == self.step(reply),
    {
        let cached = match (&self.lookup, &reply) {
            (PlotLookup::AwaitCache { .. }, Reply::Cached(Some(_))) => true,
            _ => false,
        };
        if cached {
            return Step::Done(Ok(true));
        }
        match self.lookup.resume(reply) {
            Step::Next(lookup, command) => Step::Next(PlotExists { lookup }, command),
            Step::Done(result) => Step::Done(
                match result {
                    Ok(found) => Ok(found.is_some()),
                    Err(e) => Err(e),
                },
            ),
            Step::Settled(result, command) => Step::Settled(
                match result {
                    Ok(found) => Ok(found.is_some()),
                    Err(e) => Err(e),
                },
                command,
            ),
        }
    }
}

/// Why a plot is not registered.
#[derive(Clone, Copy, PartialEq, Eq, Structural, Debug)]
pub enum RegisterError {
    InstanceNotFound,
    PlotTaken,
}

/// Why a plot is not assigned.
#[derive(Clone, Copy, PartialEq, Eq, Structural, Debug)]
pub enum PlotEditError {
    InstanceNotFound,
    PlotNotFound,
}

/// Which write a `PlotWrite` makes.
#[derive(Clone, Copy, PartialEq, Eq, Structural, Debug)]
pub enum WriteKind {
    /// A new plot for this owner.
    Register { owner: u128 },
    /// Another instance for a plot that is there.
    Edit,
}

/// Why a write was refused.
#[derive(Clone, Copy, PartialEq, Eq, Structural, Debug)]
pub enum WriteError {
    InstanceNotFound,
    PlotTaken,
    PlotNotFound,
}

/// How far a write has come.
#[derive(Clone, Copy, Debug, PartialEq, Eq)]
pub enum WritePhase {
    /// The plot's entry of the cache is being removed.
    ClearPlot,
    /// The entry of the plot's trust list is being removed.
    ClearTrust,
    /// The transaction is being opened.
    Opening,
    /// The instance is being looked up.
    Finding,
    /// The row is being written.
    Writing,
    /// The transaction is being committed.
    Committing,
    /// The transaction is being given up; the outcome is settled.
    Closing(Result<Result<(), WriteError>, StoreFault>),
}

/// Writing a plot: a number below zero is no plot's and is refused before
/// anything is asked; else both of the plot's cache entries go first, then
/// the row is written inside a transaction. An instance key that no known instance has
/// ends the write before anything is written, and a write that is refused
/// or breaks off inside the transaction gives the transaction up.
#[derive(Clone, Copy, Debug, PartialEq, Eq)]
pub struct PlotWrite {
    pub kind: WriteKind,
    pub plot: PlotId,
    pub key: Option<PublicKey>,
    pub phase: WritePhase,
}

impl PlotWrite {
    /// The same write in another phase.
    pub open spec fn at(self, phase: WritePhase) -> PlotWrite {
        PlotWrite { kind: self.kind, plot: self.plot, key: self.key, phase }
    }

    /// The command that writes the row, with the instance found for it.
    pub open spec fn write_command(self, instance: Option<i32>) -> Command {
        match self.kind {
            WriteKind::Register { owner } => Command::InsertPlot {
                plot: self.plot,
                owner,
                instance,
            },
            WriteKind::Edit => Command::UpdatePlot { plot: self.plot, instance },
        }
    }

    /// Gives up the transaction with a settled outcome.
    pub open spec fn close(self, outcome: Result<Result<(), WriteError>, StoreFault>) -> Step<
        PlotWrite,
        Result<Result<(), WriteError>, StoreFault>,
    > {
        Step::Next(self.at(WritePhase::Closing(outcome)), Command::Rollback)
    }

    /// The fault that a reply stands for where it is not the one awaited.
    pub open spec fn fault_of(reply: Reply) -> StoreFault {
        if reply is Failed {
            StoreFault::Backend
        } else {
            StoreFault::Protocol
        }
    }

    /// How the operation begins.
    pub open spec fn begin(kind: WriteKind, plot: PlotId, key: Option<PublicKey>) -> Step<
        PlotWrite,
        Result<Result<(), WriteError>, StoreFault>,
    > {
        if plot < 0 {
            Step::Done(Err(StoreFault::NegativePlot))
        } else {
            Step::Next(
                PlotWrite { kind, plot, key, phase: WritePhase::ClearPlot },
                Command::CacheDel(CacheKey::Plot(plot)),
            )
        }
    }

    /// How the operation goes on after a reply.
    pub open spec fn step(self, reply: Reply) -> Step<
        PlotWrite,
        Result<Result<(), WriteError>, StoreFault>,
    > {
        match self.phase {
            WritePhase::ClearPlot => match reply {
                Reply::Done => Step::Next(
                    self.at(WritePhase::ClearTrust),
                    Command::CacheDel(CacheKey::Trust(self.plot)),
                ),
                _ => Step::Done(Err(Self::fault_of(reply))),
            },
            WritePhase::ClearTrust => match reply {
                Reply::Done => Step::Next(self.at(WritePhase::Opening), Command::Begin),
                _ => Step::Done(Err(Self::fault_of(reply))),
            },
            WritePhase::Opening => match reply {
                Reply::Done => match self.key {
                    Some(key) => Step::Next(
                        self.at(WritePhase::Finding),
                        Command::FindInstance(key),
                    ),
                    None => Step::Next(self.at(WritePhase::Writing), self.write_command(None)),
                },
                _ => Step::Done(Err(Self::fault_of(reply))),
            },
            WritePhase::Finding => match reply {
                Reply::InstanceId(Some(id)) => Step::Next(
                    self.at(WritePhase::Writing),
                    self.write_command(Some(id)),
                ),
                Reply::InstanceId(None) => self.close(Ok(Err(WriteError::InstanceNotFound))),
                _ => self.close(Err(Self::fault_of(reply))),
            },
            WritePhase::Writing => match (self.kind, reply) {
                (WriteKind::Register { .. }, Reply::Done) => Step::Next(
                    self.at(WritePhase::Committing),
                    Command::Commit,
                ),
                (WriteKind::Register { .. }, Reply::Conflict) => self.close(
                    Ok(Err(WriteError::PlotTaken)),
                ),
                (WriteKind::Edit, Reply::Affected(rows)) => if rows == 1 {
                    Step::Next(self.at(WritePhase::Committing), Command::Commit)
                } else {
                    self.close(Ok(Err(WriteError::PlotNotFound)))
                },
                _ => self.close(Err(Self::fault_of(reply))),
            },
            WritePhase::Committing => match reply {
                Reply::Done => Step::Done(Ok(Ok(()))),
                _ => self.close(Err(Self::fault_of(reply))),
            },
            WritePhase::Closing(outcome) => Step::Done(outcome),
        }
    }

    fn moved(self, phase: WritePhase) -> (r: PlotWrite)
        ensures
            r == self.at(phase),
    {
        PlotWrite { kind: self.kind, plot: self.plot, key: self.key, phase }
    }

    fn writing(self, instance: Option<i32>) -> (r: Command)
        ensures
            r == self.write_command(instance),
    {
        match self.kind {
            WriteKind::Register { owner } => Command::InsertPlot {
                plot: self.plot,
                owner,
                instance,
            },
            WriteKind::Edit => Command::UpdatePlot { plot: self.plot, instance },
        }
    }

    fn fault(reply: &Reply) -> (r: StoreFault)
        ensures
            r == Self::fault_of(*reply),
    {
        match reply {
            Reply::Failed => StoreFault::Backend,
            _ => StoreFault::Protocol,
        }
    }

    /// Begins the operation.
    pub fn start(kind: WriteKind, plot: PlotId, key: Option<PublicKey>) -> (r: Step<
        PlotWrite,
        Result<Result<(), WriteError>, StoreFault>,
    >)
        ensures
            r == PlotWrite::begin(kind, plot, key),
    {
        if plot < 0 {
            return Step::Done(Err(StoreFault::NegativePlot));
        }
        Step::Next(
            PlotWrite { kind, plot, key, phase: WritePhase::ClearPlot },
            Command::CacheDel(CacheKey::Plot(plot)),
        )
    }

    /// Takes the reply to the last command and says how the operation goes on.
    pub fn resume(self, reply: Reply) -> (r: Step<
        PlotWrite,
        Result<Result<(), WriteError>, StoreFault>,
    >)
        ensures
            r == self.step(reply),
    {
        match self.phase {
            WritePhase::ClearPlot => match reply {
                Reply::Done => Step::Next(
                    self.moved(WritePhase::ClearTrust),
                    Command::CacheDel(CacheKey::Trust(self.plot)),
                ),
                _ => Step::Done(Err(Self::fault(&reply))),
            },
            WritePhase::ClearTrust => match reply {
                Reply::Done => Step::Next(self.moved(WritePhase::Opening), Command::Begin),
                _ => Step::Done(Err(Self::fault(&reply))),
            },
            WritePhase::Opening => match reply {
                Reply::Done => match self.key {
                    Some(key) => Step::Next(
                        self.moved(WritePhase::Finding),
                        Command::FindInstance(key),
                    ),
                    None => Step::Next(self.moved(WritePhase::Writing), self.writing(None)),
                },
                _ => Step::Done(Err(Self::fault(&reply))),
            },
            WritePhase::Finding => match reply {
                Reply::InstanceId(Some(id)) => Step::Next(
                    self.moved(WritePhase::Writing),
                    self.writing(Some(id)),
                ),
                Reply::InstanceId(None) => Step::Next(
                    self.moved(WritePhase::Closing(Ok(Err(WriteError::InstanceNotFound)))),
                    Command::Rollback,
                ),
                _ => Step::Next(
                    self.moved(WritePhase::Closing(Err(Self::fault(&reply)))),
                    Command::Rollback,
                ),
            },
            WritePhase::Writing => {
                let outcome: Option<Result<Result<(), WriteError>, StoreFault>> = match self.kind {
                    WriteKind::Register { .. } => match reply {
                        Reply::Done => None,
                        Reply::Conflict => Some(Ok(Err(WriteError::PlotTaken))),
                        _ => Some(Err(Self::fault(&reply))),
                    },
                    WriteKind::Edit => match reply {
                        Reply::Affected(rows) => if rows == 1 {
                            None
                        } else {
                            Some(Ok(Err(WriteError::PlotNotFound)))
                        },
                        _ => Some(Err(Self::fault(&reply))),
                    },
                };
                match outcome {
                    None => Step::Next(self.moved(WritePhase::Committing), Command::Commit),
                    Some(outcome) => Step::Next(
                        self.moved(WritePhase::Closing(outcome)),
                        Command::Rollback,
                    ),
                }
            },
            WritePhase::Committing => match reply {
                Reply::Done => Step::Done(Ok(Ok(()))),
                _ => Step::Next(
                    self.moved(WritePhase::Closing(Err(Self::fault(&reply)))),
                    Command::Rollback,
                ),
            },
            WritePhase::Closing(outcome) => Step::Done(outcome),
        }
    }
}

/// What a registration makes of the outcome of its write.
pub open spec fn register_outcome(outcome: Result<Result<(), WriteError>, StoreFault>) -> Result<
    Result<(), RegisterError>,
    StoreFault,
> {
    match outcome {
        Ok(Ok(())) => Ok(Ok(())),
        Ok(Err(WriteError::InstanceNotFound)) => Ok(Err(RegisterError::InstanceNotFound)),
        Ok(Err(WriteError::PlotTaken)) => Ok(Err(RegisterError::PlotTaken)),
        Ok(Err(WriteError::PlotNotFound)) => Err(StoreFault::Inconsistent),
        Err(e) => Err(e),
    }
}

/// What an assignment makes of the outcome of its write.
pub open spec fn edit_outcome(outcome: Result<Result<(), WriteError>, StoreFault>) -> Result<
    Result<(), PlotEditError>,
    StoreFault,
> {
    match outcome {
        Ok(Ok(())) => Ok(Ok(())),
        Ok(Err(WriteError::InstanceNotFound)) => Ok(Err(PlotEditError::InstanceNotFound)),
        Ok(Err(WriteError::PlotNotFound)) => Ok(Err(PlotEditError::PlotNotFound)),
        Ok(Err(WriteError::PlotTaken)) => Err(StoreFault::Inconsistent),
        Err(e) => Err(e),
    }
}

/// Registering a plot.
#[derive(Clone, Copy, Debug, PartialEq, Eq)]
pub struct RegisterPlot {
    pub write: PlotWrite,
}

impl RegisterPlot {
    /// A step of the write, as a step of the operation.
    pub open spec fn of(
        step: Step<PlotWrite, Result<Result<(), WriteError>, StoreFault>>,
    ) -> Step<RegisterPlot, Result<Result<(), RegisterError>, StoreFault>> {
        match step {
            Step::Next(write, command) => Step::Next(RegisterPlot { write }, command),
            Step::Done(outcome) => Step::Done(register_outcome(outcome)),
            Step::Settled(outcome, command) => Step::Settled(register_outcome(outcome), command),
        }
    }

    /// How the operation begins.
    pub open spec fn begin(plot: PlotId, owner: u128, key: Option<PublicKey>) -> Step<
        RegisterPlot,
        Result<Result<(), RegisterError>, StoreFault>,
    > {
        Self::of(PlotWrite::begin(WriteKind::Register { owner }, plot, key))
    }

    /// How the operation goes on after a reply.
    pub open spec fn step(self, reply: Reply) -> Step<
        RegisterPlot,
        Result<Result<(), RegisterError>, StoreFault>,
    > {
        Self::of(self.write.step(reply))
    }

    fn wrap(step: Step<PlotWrite, Result<Result<(), WriteError>, StoreFault>>) -> (r: Step<
        RegisterPlot,
        Result<Result<(), RegisterError>, StoreFault>,
    >)
        ensures
            r == Self::of(step),
    {
        match step {
            Step::Next(write, command) => Step::Next(RegisterPlot { write }, command),
            Step::Done(outcome) => Step::Done(Self::outcome(outcome)),
            Step::Settled(outcome, command) => Step::Settled(Self::outcome(outcome), command),
        }
    }

    fn outcome(outcome: Result<Result<(), WriteError>, StoreFault>) -> (r: Result<
        Result<(), RegisterError>,
        StoreFault,
    >)
        ensures
            r == register_outcome(outcome),
    {
        match outcome {
            Ok(Ok(())) => Ok(Ok(())),
            Ok(Err(WriteError::InstanceNotFound)) => Ok(Err(RegisterError::InstanceNotFound)),
            Ok(Err(WriteError::PlotTaken)) => Ok(Err(RegisterError::PlotTaken)),
            Ok(Err(WriteError::PlotNotFound)) => Err(StoreFault::Inconsistent),
            Err(e) => Err(e),
        }
    }

    /// Takes the reply to the last command and says how the operation goes on.
    pub fn resume(self, reply: Reply) -> (r: Step<
        RegisterPlot,
        Result<Result<(), RegisterError>, StoreFault>,
    >)
        ensures
            r == self.step(reply),
    {
        Self::wrap(self.write.resume(reply))
    }
}

/// Assigning a plot to another instance.
#[derive(Clone, Copy, Debug, PartialEq, Eq)]
pub struct EditPlot {
    pub write: PlotWrite,
}

impl EditPlot {
    /// A step of the write, as a step of the operation.
    pub open spec fn of(
        step: Step<PlotWrite, Result<Result<(), WriteError>, StoreFault>>,
    ) -> Step<EditPlot, Result<Result<(), PlotEditError>, StoreFault>> {
        match step {
            Step::Next(write, command) => Step::Next(EditPlot { write }, command),
            Step::Done(outcome) => Step::Done(edit_outcome(outcome)),
            Step::Settled(outcome, command) => Step::Settled(edit_outcome(outcome), command),
        }
    }

    /// How the operation begins.
    pub open spec fn begin(plot: PlotId, key: Option<PublicKey>) -> Step<
        EditPlot,
        Result<Result<(), PlotEditError>, StoreFault>,
    > {
        Self::of(PlotWrite::begin(WriteKind::Edit, plot, key))
    }

    /// How the operation goes on after a reply.
    pub open spec fn step(self, reply: Reply) -> Step<
        EditPlot,
        Result<Result<(), PlotEditError>, StoreFault>,
    > {
        Self::of(self.write.step(reply))
    }

    fn wrap(step: Step<PlotWrite, Result<Result<(), WriteError>, StoreFault>>) -> (r: Step<
        EditPlot,
        Result<Result<(), PlotEditError>, StoreFault>,
    >)
        ensures
            r == Self::of(step),
    {
        match step {
            Step::Next(write, command) => Step::Next(EditPlot { write }, command),
            Step::Done(outcome) => Step::Done(Self::outcome(outcome)),
            Step::Settled(outcome, command) => Step::Settled(Self::outcome(outcome), command),
        }
    }

    fn outcome(outcome: Result<Result<(), WriteError>, StoreFault>) -> (r: Result<
        Result<(), PlotEditError>,
        StoreFault,
    >)
        ensures
            r == edit_outcome(outcome),
    {
        match outcome {
            Ok(Ok(())) => Ok(Ok(())),
            Ok(Err(WriteError::InstanceNotFound)) => Ok(Err(PlotEditError::InstanceNotFound)),
            Ok(Err(WriteError::PlotNotFound)) => Ok(Err(PlotEditError::PlotNotFound)),
            Ok(Err(WriteError::PlotTaken)) => Err(StoreFault::Inconsistent),
            Err(e) => Err(e),
        }
    }

    /// Takes the reply to the last command and says how the operation goes on.
    pub fn resume(self, reply: Reply) -> (r: Step<
        EditPlot,
        Result<Result<(), PlotEditError>, StoreFault>,
    >)
        ensures
            r == self.step(reply),
    {
        Self::wrap(self.write.resume(reply))
    }
}

impl Store {
    /// Begins asking whether a plot is registered.
    pub fn plot_exists(&self, plot_id: PlotId) -> (r: Step<PlotExists, Result<bool, StoreFault>>)
        ensures
            r == PlotExists::begin(plot_id, self.public_key),
    {
        Step::Next(
            PlotExists { lookup: PlotLookup::AwaitCache { plot: plot_id, current: self.public_key } },
            Command::CacheGet(CacheKey::Plot(plot_id)),
        )
    }

    /// Begins reading a plot.
    pub fn get_plot(&self, plot_id: PlotId) -> (r: Step<
        PlotLookup,
        Result<Option<Plot>, StoreFault>,
    >)
        ensures
            r == PlotLookup::begin(plot_id, self.public_key),
    {
        PlotLookup::start(plot_id, self.public_key)
    }

    /// Begins registering a plot for `uuid`, on the instance with the key
    /// `instance_key`, or on this instance where there is none.
    pub fn register_plot(&self, plot_id: PlotId, uuid: u128, instance_key: Option<PublicKey>) -> (r:
        Step<RegisterPlot, Result<Result<(), RegisterError>, StoreFault>>)
        ensures
            r == RegisterPlot::begin(plot_id, uuid, instance_key),
    {
        RegisterPlot::wrap(
            PlotWrite::start(WriteKind::Register { owner: uuid }, plot_id, instance_key),
        )
    }

    /// Begins assigning a plot to the instance with the key `instance_key`,
    /// or to this instance where there is none.
    pub fn edit_plot(&self, plot_id: PlotId, instance_key: Option<PublicKey>) -> (r: Step<
        EditPlot,
        Result<Result<(), PlotEditError>, StoreFault>,
    >)
        ensures
            r == EditPlot::begin(plot_id, instance_key),
    {
        EditPlot::wrap(PlotWrite::start(WriteKind::Edit, plot_id, instance_key))
    }
}

} // verus!
