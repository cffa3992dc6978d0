//! The directory interface: registering plots, assigning them to
//! instances, and showing where a plot lives.

use crate::auth::{Auth, Plot, PlotAuth, UnregisteredAuth};
use crate::codec::{base64url_encode, base64url_text};
use crate::handshake::{challenge, challenge_text, FetchTokenResponse, TokenRequest};
use crate::instance::{ExternalDomain, SendInstance};
use crate::keys::{ed25519_signature, KeyFormatError, PublicKey};
use crate::store::VerificationResponse;
use crate::store::instance::{
    EditPlot, PlotEditError, PlotLookup, RegisterError, RegisterPlot,
};
use crate::store::keys::{KeyIssue, KeyPurge};
use crate::store::players::PlayerLookup;
use crate::store::{Reply, Step, Store, StoreFault};
use crate::PlotId;
use vstd::prelude::*;

verus! {

/// The directory interface of the instance at `domain`.
pub struct InstanceApi {
    pub store: Store,
    pub domain: ExternalDomain,
}

/// A plot as it is shown: its number, its owner, and its instance as text.
#[derive(Debug, PartialEq, Eq)]
pub struct PlotResponse {
    pub plot: PlotId,
    pub owner: String,
    pub instance: String,
}

/// How a registration ends.
#[derive(Clone, Copy, PartialEq, Eq, Structural, Debug)]
pub enum RegisterResult {
    /// The account service knows no player of the owner's name.
    CannotFetchUuid,
    InstanceNotRegistered,
    InvalidKeyFormat(KeyFormatError),
    PlotAlreadyExists,
    Registered,
}

impl RegisterResult {
    /// The HTTP status that the answer is sent with.
    pub fn status(&self) -> (r: u16)
        ensures
            r == match self {
                RegisterResult::CannotFetchUuid => 500u16,
                RegisterResult::InstanceNotRegistered => 400u16,
                RegisterResult::InvalidKeyFormat(_) => 400u16,
                RegisterResult::PlotAlreadyExists => 409u16,
                RegisterResult::Registered => 200u16,
            },
    {
        match self {
            RegisterResult::CannotFetchUuid => 500,
            RegisterResult::InstanceNotRegistered => 400,
            RegisterResult::InvalidKeyFormat(_) => 400,
            RegisterResult::PlotAlreadyExists => 409,
            RegisterResult::Registered => 200,
        }
    }
}

/// How the assignment of a plot to an instance ends.
#[derive(Clone, Copy, PartialEq, Eq, Structural, Debug)]
pub enum ReplaceInstanceResult {
    PlotNotFound,
    InstanceNotRegisterd,
    InvalidKeyFormat(KeyFormatError),
    Success,
}

impl ReplaceInstanceResult {
    /// The HTTP status that the answer is sent with.
    pub fn status(&self) -> (r: u16)
        ensures
            r == match self {
                ReplaceInstanceResult::PlotNotFound => 404u16,
                ReplaceInstanceResult::InstanceNotRegisterd => 400u16,
                ReplaceInstanceResult::InvalidKeyFormat(_) => 400u16,
                ReplaceInstanceResult::Success => 200u16,
            },
    {
        match self {
            ReplaceInstanceResult::PlotNotFound => 404,
            ReplaceInstanceResult::InstanceNotRegisterd => 400,
            ReplaceInstanceResult::InvalidKeyFormat(_) => 400,
            ReplaceInstanceResult::Success => 200,
        }
    }
}

/// What is shown of a plot's instance.
#[derive(Debug, PartialEq, Eq)]
pub enum PlotFetchResult {
    /// The instance as text: its domain, a semicolon, its key.
    Found(String),
    NotFound,
}

impl PlotFetchResult {
    /// The HTTP status that the answer is sent with.
    pub fn status(&self) -> (r: u16)
        ensures
            r == match self {
                PlotFetchResult::Found(_) => 200u16,
                PlotFetchResult::NotFound => 404u16,
            },
    {
        match self {
            PlotFetchResult::Found(_) => 200,
            PlotFetchResult::NotFound => 404,
        }
    }
}

/// The instance key that a request names: none, a key, or a text that is
/// no key.
pub open spec fn named_key(instance_key: Option<String>) -> Result<
    Option<PublicKey>,
    KeyFormatError,
> {
    match instance_key {
        None => Ok(None),
        Some(text) => match PublicKey::decoding(text@) {
            Ok(key) => Ok(Some(key)),
            Err(e) => Err(e),
        },
    }
}

/// Reads the instance key that a request names.
pub fn decode_instance_key(instance_key: &Option<String>) -> (r: Result<
    Option<PublicKey>,
    KeyFormatError,
>)
    ensures
        r == named_key(*instance_key),
{
    match instance_key {
        None => Ok(None),
        Some(text) => match PublicKey::decode(text.as_str()) {
            Ok(key) => Ok(Some(key)),
            Err(e) => Err(e),
        },
    }
}

/// What a registration makes of the outcome of its write.
pub open spec fn registered(outcome: Result<Result<(), RegisterError>, StoreFault>) -> Result<
    RegisterResult,
    StoreFault,
> {
    match outcome {
        Ok(Ok(())) => Ok(RegisterResult::Registered),
        Ok(Err(RegisterError::PlotTaken)) => Ok(RegisterResult::PlotAlreadyExists),
        Ok(Err(RegisterError::InstanceNotFound)) => Ok(RegisterResult::InstanceNotRegistered),
        Err(e) => Err(e),
    }
}

/// What an assignment makes of the outcome of its write.
pub open spec fn replaced(outcome: Result<Result<(), PlotEditError>, StoreFault>) -> Result<
    ReplaceInstanceResult,
    StoreFault,
> {
    match outcome {
        Ok(Ok(())) => Ok(ReplaceInstanceResult::Success),
        Ok(Err(PlotEditError::PlotNotFound)) => Ok(ReplaceInstanceResult::PlotNotFound),
        Ok(Err(PlotEditError::InstanceNotFound)) => Ok(ReplaceInstanceResult::InstanceNotRegisterd),
        Err(e) => Err(e),
    }
}

/// Registering a plot that a game server vouched for: the owner's account
/// is looked up by name, then the instance key is read, then the plot is
/// written.
#[derive(Debug, PartialEq, Eq)]
pub enum Registration {
    Resolving { plot: PlotId, instance_key: Option<String>, lookup: PlayerLookup },
    Writing { write: RegisterPlot },
}

impl Registration {
    /// The request while, and after, the plot is written.
    pub open spec fn writing(
        step: Step<RegisterPlot, Result<Result<(), RegisterError>, StoreFault>>,
    ) -> Step<Registration, Result<RegisterResult, StoreFault>> {
        match step {
            Step::Next(write, command) => Step::Next(Registration::Writing { write }, command),
            Step::Done(outcome) => Step::Done(registered(outcome)),
            Step::Settled(outcome, command) => Step::Settled(registered(outcome), command),
        }
    }

    /// How the registration goes on once the account service has answered.
    pub open spec fn resolved(plot: PlotId, instance_key: Option<String>, owner: Option<u128>)
        -> Step<Registration, Result<RegisterResult, StoreFault>> {
        match owner {
            None => Step::Done(Ok(RegisterResult::CannotFetchUuid)),
            Some(uuid) => match named_key(instance_key) {
                Err(e) => Step::Done(Ok(RegisterResult::InvalidKeyFormat(e))),
                Ok(key) => Self::writing(RegisterPlot::begin(plot, uuid, key)),
            },
        }
    }

    /// The registration while, and after, the owner's account is looked up.
    pub open spec fn resolving(
        plot: PlotId,
        instance_key: Option<String>,
        step: Step<PlayerLookup, Result<Option<u128>, StoreFault>>,
    ) -> Step<Registration, Result<RegisterResult, StoreFault>> {
        match step {
            Step::Next(lookup, command) => Step::Next(
                Registration::Resolving { plot, instance_key, lookup },
                command,
            ),
            Step::Done(Ok(owner)) => Self::resolved(plot, instance_key, owner),
            Step::Done(Err(e)) => Step::Done(Err(e)),
            Step::Settled(Ok(owner), _) => Self::resolved(plot, instance_key, owner),
            Step::Settled(Err(e), _) => Step::Done(Err(e)),
        }
    }

    /// How the operation begins.
    pub open spec fn begin(plot: PlotId, owner: String, instance_key: Option<String>) -> Step<
        Registration,
        Result<RegisterResult, StoreFault>,
    > {
        Self::resolving(plot, instance_key, PlayerLookup::begin(owner))
    }

    /// How the operation goes on after a reply.
    pub open spec fn step(self, reply: Reply) -> Step<
        Registration,
        Result<RegisterResult, StoreFault>,
    > {
        match self {
            Registration::Resolving { plot, instance_key, lookup } => Self::resolving(
                plot,
                instance_key,
                lookup.step(reply),
            ),
            Registration::Writing { write } => Self::writing(write.step(reply)),
        }
    }

    fn outcome(outcome: Result<Result<(), RegisterError>, StoreFault>) -> (r: Result<
        RegisterResult,
        StoreFault,
    >)
        ensures
            r == registered(outcome),
    {
        match outcome {
            Ok(Ok(())) => Ok(RegisterResult::Registered),
            Ok(Err(RegisterError::PlotTaken)) => Ok(RegisterResult::PlotAlreadyExists),
            Ok(Err(RegisterError::InstanceNotFound)) => Ok(RegisterResult::InstanceNotRegistered),
            Err(e) => Err(e),
        }
    }

    fn write(step: Step<RegisterPlot, Result<Result<(), RegisterError>, StoreFault>>) -> (r: Step<
        Registration,
        Result<RegisterResult, StoreFault>,
    >)
        ensures
            r == Self::writing(step),
    {
        match step {
            Step::Next(write, command) => Step::Next(Registration::Writing { write }, command),
            Step::Done(outcome) => Step::Done(Self::outcome(outcome)),
            Step::Settled(outcome, command) => Step::Settled(Self::outcome(outcome), command),
        }
    }

    fn resolve(store: &Store, plot: PlotId, instance_key: Option<String>, owner: Option<u128>) -> (r:
        Step<Registration, Result<RegisterResult, StoreFault>>)
        ensures
            r == Self::resolved(plot, instance_key, owner),
    {
        match owner {
            None => Step::Done(Ok(RegisterResult::CannotFetchUuid)),
            Some(uuid) => match decode_instance_key(&instance_key) {
                Err(e) => Step::Done(Ok(RegisterResult::InvalidKeyFormat(e))),
                Ok(key) => Self::write(store.register_plot(plot, uuid, key)),
            },
        }
    }

    fn wrap(
        store: &Store,
        plot: PlotId,
        instance_key: Option<String>,
        step: Step<PlayerLookup, Result<Option<u128>, StoreFault>>,
    ) -> (r: Step<Registration, Result<RegisterResult, StoreFault>>)
        ensures
            r == Self::resolving(plot, instance_key, step),
    {
        match step {
            Step::Next(lookup, command) => Step::Next(
                Registration::Resolving { plot, instance_key, lookup },
                command,
            ),
            Step::Done(Ok(owner)) => Self::resolve(store, plot, instance_key, owner),
            Step::Done(Err(e)) => Step::Done(Err(e)),
            Step::Settled(Ok(owner), _) => Self::resolve(store, plot, instance_key, owner),
            Step::Settled(Err(e), _) => Step::Done(Err(e)),
        }
    }

    /// Takes the reply to the last command and says how the operation goes on.
    pub fn resume(self, store: &Store, reply: Reply) -> (r: Step<
        Registration,
        Result<RegisterResult, StoreFault>,
    >)
        ensures
            r == self.step(reply),
    {
        match self {
            Registration::Resolving { plot, instance_key, lookup } => Self::wrap(
                store,
                plot,
                instance_key,
                lookup.resume(reply),
            ),
            Registration::Writing { write } => Self::write(write.resume(reply)),
        }
    }
}

/// Assigning a caller's plot to another instance: the instance key is
/// read, then the plot is written.
#[derive(Clone, Copy, Debug, PartialEq, Eq)]
pub struct Replacement {
    pub write: EditPlot,
}

impl Replacement {
    /// The request while, and after, the plot is written.
    pub open spec fn writing(
        step: Step<EditPlot, Result<Result<(), PlotEditError>, StoreFault>>,
    ) -> Step<Replacement, Result<ReplaceInstanceResult, StoreFault>> {
        match step {
            Step::Next(write, command) => Step::Next(Replacement { write }, command),
            Step::Done(outcome) => Step::Done(replaced(outcome)),
            Step::Settled(outcome, command) => Step::Settled(replaced(outcome), command),
        }
    }

    /// How the operation begins.
    pub open spec fn begin(plot: PlotId, instance_key: Option<String>) -> Step<
        Replacement,
        Result<ReplaceInstanceResult, StoreFault>,
    > {
        match named_key(instance_key) {
            Err(e) => Step::Done(Ok(ReplaceInstanceResult::InvalidKeyFormat(e))),
            Ok(key) => Self::writing(EditPlot::begin(plot, key)),
        }
    }

    /// How the operation goes on after a reply.
    pub open spec fn step(self, reply: Reply) -> Step<
        Replacement,
        Result<ReplaceInstanceResult, StoreFault>,
    > {
        Self::writing(self.write.step(reply))
    }

    fn outcome(outcome: Result<Result<(), PlotEditError>, StoreFault>) -> (r: Result<
        ReplaceInstanceResult,
        StoreFault,
    >)
        ensures
            r == replaced(outcome),
    {
        match outcome {
            Ok(Ok(())) => Ok(ReplaceInstanceResult::Success),
            Ok(Err(PlotEditError::PlotNotFound)) => Ok(ReplaceInstanceResult::PlotNotFound),
            Ok(Err(PlotEditError::InstanceNotFound)) => Ok(
                ReplaceInstanceResult::InstanceNotRegisterd,
            ),
            Err(e) => Err(e),
        }
    }

    fn write(step: Step<EditPlot, Result<Result<(), PlotEditError>, StoreFault>>) -> (r: Step<
        Replacement,
        Result<ReplaceInstanceResult, StoreFault>,
    >)
        ensures
            r == Self::writing(step),
    {
        match step {
            Step::Next(write, command) => Step::Next(Replacement { write }, command),
            Step::Done(outcome) => Step::Done(Self::outcome(outcome)),
            Step::Settled(outcome, command) => Step::Settled(Self::outcome(outcome), command),
        }
    }

    /// Takes the reply to the last command and says how the operation goes on.
    pub fn resume(self, reply: Reply) -> (r: Step<
        Replacement,
        Result<ReplaceInstanceResult, StoreFault>,
    >)
        ensures
            r == self.step(reply),
    {
        Self::write(self.write.resume(reply))
    }
}

impl InstanceApi {
    /// Answers a peer that asks this instance to prove its key: the key and
    /// the signature of `tosign`, both in base64.
    pub fn vibecheck(&self, tosign: &str) -> (r: VerificationResponse)
        ensures
            r.server_key@ == base64url_text(self.store.public_key@),
            r.signature@ == base64url_text(
                ed25519_signature(self.store.secret_key@, vstd::utf8::encode_utf8(tosign@)),
            ),
    {
        let signature = self.store.sign(tosign.as_bytes());
        VerificationResponse {
            server_key: self.store.public_key.encode(),
            signature: base64url_encode(signature.as_slice()),
        }
    }

    /// Begins a request for a server token by the instance that claims
    /// `key` and `domain`, with the challenge of the given instant. A claim
    /// of this instance's own domain or key is refused at once.
    pub fn get_server_token(&self, key: String, domain: String, millis: i64, offset: i32) -> (r:
        Step<TokenRequest, Result<SendInstance, FetchTokenResponse>>)
        ensures
            exists|sent: Option<String>|
                r == TokenRequest::begin(
                    self.store.public_key,
                    self.domain,
                    SendInstance { key, domain },
                    sent,
                )
                    && match sent {
                    Some(text) => challenge_text(millis, offset) == Some(text@),
                    None => challenge_text(millis, offset) is None,
                },
    {
        let sent = challenge(millis, offset);
        TokenRequest::start(self.store.public_key, &self.domain, SendInstance { key, domain }, sent)
    }

    /// The number of the caller's plot.
    pub fn whoami(&self, auth: Auth) -> (r: PlotId)
        ensures
            r == match auth {
                Auth::KeyAuth(a) => a.0.plot_id,
                Auth::PlotAuth(a) => a.0.plot_id,
            },
    {
        auth.plot().plot_id
    }

    /// Begins reading the plot whose instance is to be shown.
    pub fn get_plot_instance(&self, id: PlotId) -> (r: Step<
        PlotLookup,
        Result<Option<Plot>, StoreFault>,
    >)
        ensures
            r == PlotLookup::begin(id, self.store.public_key),
    {
        self.store.get_plot(id)
    }

    /// Shows the instance of the plot that was read: as text, with this
    /// instance's own domain for a plot that lives here.
    pub fn plot_instance(&self, found: &Option<Plot>) -> (r: PlotFetchResult)
        ensures
            match found {
                Some(plot) => r matches PlotFetchResult::Found(text) && text@
                    == plot.instance.encoding(self.domain@),
                None => r is NotFound,
            },
    {
        match found {
            Some(plot) => {
                let here = self.domain.text();
                PlotFetchResult::Found(plot.instance.encode(here.as_str()))
            },
            None => PlotFetchResult::NotFound,
        }
    }

    /// Begins registering the plot that a game server vouched for, on the
    /// instance with the key `instance_key`, or on this one.
    pub fn register(&self, instance_key: Option<String>, auth: UnregisteredAuth) -> (r: Step<
        Registration,
        Result<RegisterResult, StoreFault>,
    >)
        ensures
            r == Registration::begin(auth.0.plot_id, auth.0.owner, instance_key),
    {
        let plot = auth.0;
        Registration::wrap(&self.store, plot.plot_id, instance_key, self.store.get_uuid(plot.owner))
    }

    /// Begins assigning the caller's plot to the instance with the key
    /// `instance_key`, or to this one.
    pub fn replace_instance(&self, instance_key: Option<String>, auth: Auth) -> (r: Step<
        Replacement,
        Result<ReplaceInstanceResult, StoreFault>,
    >)
        ensures
            r == Replacement::begin(auth.plot_id(), instance_key),
    {
        let plot = auth.plot();
        match decode_instance_key(&instance_key) {
            Err(e) => Step::Done(Ok(ReplaceInstanceResult::InvalidKeyFormat(e))),
            Ok(key) => Replacement::write(self.store.edit_plot(plot.plot_id, key)),
        }
    }

    /// Begins issuing an API key for the caller's plot.
    pub fn create_api_key(&self, auth: PlotAuth) -> (r: Step<KeyIssue, Result<String, StoreFault>>)
        ensures
            r matches Step::Next(issue, crate::store::Command::InsertKey(plot, key)) && plot
                == auth.0.plot_id && key == issue.key && key@.len()
                == crate::store::keys::API_KEY_LENGTH && forall|i: int|
                0 <= i < key@.len() ==> crate::codec::is_alphanumeric(#[trigger] key@[i]),
    {
        self.store.create_key(auth.0.plot_id)
    }

    /// Begins disabling the API keys of the caller's plot.
    pub fn delete_all_api_keys(&self, auth: Auth) -> (r: Step<KeyPurge, Result<(), StoreFault>>)
        ensures
            r == KeyPurge::begin(auth.plot_id()),
    {
        self.store.disable_all_keys(auth.plot().plot_id)
    }
}

} // verus!
