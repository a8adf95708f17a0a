//! Transaction-response records and their conversions.
//!
//! A full node answers transaction queries with a response whose parts are
//! all optional; which parts are present depends on what the caller asked
//! for and on where the transaction stands. The types here model such a
//! response with plain values — payloads the logic never opens are opaque
//! handles — and the conversions validate and reshape it: a fast-path record
//! demands the freshly executed parts, a checkpoint record demands the
//! checkpointed parts, and both reject a response that carries errors. From
//! a checkpointed response the indexing records (input objects, move calls,
//! recipients, addresses) are derived.

use vstd::prelude::*;

verus! {

/// Transaction input data: its sender and what kind of transaction it is.
#[derive(Debug, Clone)]
pub struct SuiTransactionData {
    pub sender: String,
    pub kind: SuiTransactionKind,
}

#[derive(Debug, Clone)]
pub enum SuiTransactionKind {
    ProgrammableTransaction { commands: Vec<SuiCommand> },
    Other,
}

#[derive(Debug, Clone)]
pub enum SuiCommand {
    MoveCall { package: String, module: String, function: String },
    Other,
}

#[derive(Debug, Clone)]
pub struct SuiTransaction {
    pub data: SuiTransactionData,
}

/// Who owns an object an execution touched.
#[derive(Debug, Clone)]
pub enum Owner {
    AddressOwner { address: String },
    Other,
}

#[derive(Debug, Clone)]
pub struct OwnedObjectRef {
    pub owner: Owner,
}

/// The object references an execution created, mutated or unwrapped.
#[derive(Debug, Clone)]
pub struct SuiTransactionEffects {
    pub created: Vec<OwnedObjectRef>,
    pub mutated: Vec<OwnedObjectRef>,
    pub unwrapped: Vec<OwnedObjectRef>,
}

/// Emitted events; carried through unopened.
#[derive(Debug, Clone)]
pub struct SuiTransactionEvents {
    pub handle: u64,
}

/// What a full node answers to a transaction query. Every part the caller
/// may leave unrequested is optional.
#[derive(Debug, Clone)]
pub struct SuiTransactionResponse {
    pub digest: u64,
    pub transaction: Option<SuiTransaction>,
    pub raw_transaction: Vec<u8>,
    pub effects: Option<SuiTransactionEffects>,
    pub events: Option<SuiTransactionEvents>,
    pub object_changes: Option<Vec<u64>>,
    pub balance_changes: Option<Vec<u64>>,
    pub timestamp_ms: Option<u64>,
    pub confirmed_local_execution: Option<bool>,
    pub checkpoint: Option<u64>,
    pub errors: Vec<String>,
}

/// Which parts of a response the caller asked for.
#[derive(PartialEq, Eq, Structural, Clone, Copy, Debug)]
pub struct SuiTransactionResponseOptions {
    pub show_input: bool,
    pub show_raw_input: bool,
    pub show_effects: bool,
    pub show_events: bool,
    pub show_object_changes: bool,
    pub show_balance_changes: bool,
}

/// Why a response cannot be reshaped into the record asked of it. The first
/// missing part, in the order the parts are checked, names the error.
#[derive(PartialEq, Eq, Structural, Clone, Copy, Debug)]
pub enum ResponseError {
    MissingTransaction,
    MissingEffects,
    MissingEvents,
    MissingObjectChanges,
    MissingBalanceChanges,
    MissingTimestamp,
    MissingCheckpoint,
    EmptyRawTransaction,
    CarriesErrors,
}

/// A freshly executed transaction with everything the fast path needs.
#[derive(Debug, Clone)]
pub struct FastPathTransactionResponse {
    pub digest: u64,
    pub transaction: SuiTransaction,
    pub raw_transaction: Vec<u8>,
    pub effects: SuiTransactionEffects,
    pub events: SuiTransactionEvents,
    pub object_changes: Vec<u64>,
    pub balance_changes: Vec<u64>,
    pub confirmed_local_execution: Option<bool>,
}

impl FastPathTransactionResponse {
    /// A fast-path record demands the transaction, effects, events, object
    /// changes and balance changes, and a response free of errors; the first
    /// part found missing is reported.
    pub fn try_from(response: SuiTransactionResponse) -> (r: Result<
        FastPathTransactionResponse,
        ResponseError,
    >)
        ensures
            r is Ok <==> response.transaction is Some && response.effects is Some
                && response.events is Some && response.object_changes is Some
                && response.balance_changes is Some && response.errors@.len() == 0,
            response.transaction is None ==> r == Err::<FastPathTransactionResponse, _>(
                ResponseError::MissingTransaction,
            ),
            response.transaction is Some && response.effects is None ==> r == Err::<
                FastPathTransactionResponse,
                _,
            >(ResponseError::MissingEffects),
            response.transaction is Some && response.effects is Some && response.events is None
                ==> r == Err::<FastPathTransactionResponse, _>(ResponseError::MissingEvents),
            response.transaction is Some && response.effects is Some && response.events is Some
                && response.object_changes is None ==> r == Err::<FastPathTransactionResponse, _>(
                ResponseError::MissingObjectChanges,
            ),
            response.transaction is Some && response.effects is Some && response.events is Some
                && response.object_changes is Some && response.balance_changes is None ==> r
                == Err::<FastPathTransactionResponse, _>(ResponseError::MissingBalanceChanges),
            response.transaction is Some && response.effects is Some && response.events is Some
                && response.object_changes is Some && response.balance_changes is Some
                && response.errors@.len() > 0 ==> r == Err::<FastPathTransactionResponse, _>(
                ResponseError::CarriesErrors,
            ),
            r matches Ok(f) ==> {
                &&& f.digest == response.digest
                &&& response.transaction == Some(f.transaction)
                &&& f.raw_transaction == response.raw_transaction
                &&& response.effects == Some(f.effects)
                &&& response.events == Some(f.events)
                &&& response.object_changes == Some(f.object_changes)
                &&& response.balance_changes == Some(f.balance_changes)
                &&& f.confirmed_local_execution == response.confirmed_local_execution
            },
    {
        let SuiTransactionResponse {
            digest,
            transaction,
            raw_transaction,
            effects,
            events,
            object_changes,
            balance_changes,
            timestamp_ms: _,
            confirmed_local_execution,
            checkpoint: _,
            errors,
        } = response;
        let transaction = match transaction {
            Some(t) => t,
            None => {
                return Err(ResponseError::MissingTransaction);
            },
        };
        let effects = match effects {
            Some(e) => e,
            None => {
                return Err(ResponseError::MissingEffects);
            },
        };
        let events = match events {
            Some(e) => e,
            None => {
                return Err(ResponseError::MissingEvents);
            },
        };
        let object_changes = match object_changes {
            Some(o) => o,
            None => {
                return Err(ResponseError::MissingObjectChanges);
            },
        };
        let balance_changes = match balance_changes {
            Some(b) => b,
            None => {
                return Err(ResponseError::MissingBalanceChanges);
            },
        };
        if errors.len() > 0 {
            return Err(ResponseError::CarriesErrors);
        }
        Ok(
            FastPathTransactionResponse {
                digest,
                transaction,
                raw_transaction,
                effects,
                events,
                object_changes,
                balance_changes,
                confirmed_local_execution,
            },
        )
    }
}

/// A checkpointed transaction with everything the indexing path needs.
#[derive(Debug, Clone)]
pub struct CheckpointTransactionResponse {
    pub digest: u64,
    pub transaction: SuiTransaction,
    pub raw_transaction: Vec<u8>,
    pub effects: SuiTransactionEffects,
    pub events: SuiTransactionEvents,
    pub timestamp_ms: u64,
    pub confirmed_local_execution: Option<bool>,
    pub checkpoint: u64,
}

impl CheckpointTransactionResponse {
    /// A checkpoint record demands the transaction, effects, events,
    /// timestamp and checkpoint position, a non-empty serialized
    /// transaction, and a response free of errors; the first part found
    /// missing is reported.
    pub fn try_from(response: SuiTransactionResponse) -> (r: Result<
        CheckpointTransactionResponse,
        ResponseError,
    >)
        ensures
            r is Ok <==> response.transaction is Some && response.effects is Some
                && response.events is Some && response.timestamp_ms is Some
                && response.checkpoint is Some && response.raw_transaction@.len() > 0
                && response.errors@.len() == 0,
            response.transaction is None ==> r == Err::<CheckpointTransactionResponse, _>(
                ResponseError::MissingTransaction,
            ),
            response.transaction is Some && response.effects is None ==> r == Err::<
                CheckpointTransactionResponse,
                _,
            >(ResponseError::MissingEffects),
            response.transaction is Some && response.effects is Some && response.events is None
                ==> r == Err::<CheckpointTransactionResponse, _>(ResponseError::MissingEvents),
            response.transaction is Some && response.effects is Some && response.events is Some
                && response.timestamp_ms is None ==> r == Err::<CheckpointTransactionResponse, _>(
                ResponseError::MissingTimestamp,
            ),
            response.transaction is Some && response.effects is Some && response.events is Some
                && response.timestamp_ms is Some && response.checkpoint is None ==> r == Err::<
                CheckpointTransactionResponse,
                _,
            >(ResponseError::MissingCheckpoint),
            response.transaction is Some && response.effects is Some && response.events is Some
                && response.timestamp_ms is Some && response.checkpoint is Some
                && response.raw_transaction@.len() == 0 ==> r == Err::<
                CheckpointTransactionResponse,
                _,
            >(ResponseError::EmptyRawTransaction),
            response.transaction is Some && response.effects is Some && response.events is Some
                && response.timestamp_ms is Some && response.checkpoint is Some
                && response.raw_transaction@.len() > 0 && response.errors@.len() > 0 ==> r
                == Err::<CheckpointTransactionResponse, _>(ResponseError::CarriesErrors),
            r matches Ok(c) ==> {
                &&& c.digest == response.digest
                &&& response.transaction == Some(c.transaction)
                &&& c.raw_transaction == response.raw_transaction
                &&& response.effects == Some(c.effects)
                &&& response.events == Some(c.events)
                &&& response.timestamp_ms == Some(c.timestamp_ms)
                &&& c.confirmed_local_execution == response.confirmed_local_execution
                &&& response.checkpoint == Some(c.checkpoint)
            },
    {
        let SuiTransactionResponse {
            digest,
            transaction,
            raw_transaction,
            effects,
            events,
            object_changes: _,
            balance_changes: _,
            timestamp_ms,
            confirmed_local_execution,
            checkpoint,
            errors,
        } = response;
        let transaction = match transaction {
            Some(t) => t,
            None => {
                return Err(ResponseError::MissingTransaction);
            },
        };
        let effects = match effects {
            Some(e) => e,
            None => {
                return Err(ResponseError::MissingEffects);
            },
        };
        let events = match events {
            Some(e) => e,
            None => {
                return Err(ResponseError::MissingEvents);
            },
        };
        let timestamp_ms = match timestamp_ms {
            Some(t) => t,
            None => {
                return Err(ResponseError::MissingTimestamp);
            },
        };
        let checkpoint = match checkpoint {
            Some(c) => c,
            None => {
                return Err(ResponseError::MissingCheckpoint);
            },
        };
        if raw_transaction.len() == 0 {
            return Err(ResponseError::EmptyRawTransaction);
        }
        if errors.len() > 0 {
            return Err(ResponseError::CarriesErrors);
        }
        Ok(
            CheckpointTransactionResponse {
                digest,
                transaction,
                raw_transaction,
                effects,
                events,
                timestamp_ms,
                confirmed_local_execution,
                checkpoint,
            },
        )
    }
}

/// One object a transaction took as input, as decoded from its serialized
/// form.
#[derive(Debug, Clone)]
pub struct InputObjectKind {
    pub object_id: String,
    pub object_version: Option<u64>,
}

/// Indexing record: one input object of one checkpointed transaction.
#[derive(PartialEq, Eq, Debug, Clone)]
pub struct InputObject {
    pub transaction_digest: u64,
    pub checkpoint_sequence_number: u64,
    pub epoch: u64,
    pub object_id: String,
    pub object_version: Option<u64>,
}

/// Indexing record: one move call of one checkpointed transaction.
#[derive(PartialEq, Eq, Debug, Clone)]
pub struct MoveCall {
    pub transaction_digest: u64,
    pub checkpoint_sequence_number: u64,
    pub epoch: u64,
    pub sender: String,
    pub move_package: String,
    pub move_module: String,
    pub move_function: String,
}

/// Indexing record: one address that received an object from one
/// checkpointed transaction.
#[derive(PartialEq, Eq, Debug, Clone)]
pub struct Recipient {
    pub transaction_digest: u64,
    pub checkpoint_sequence_number: u64,
    pub epoch: u64,
    pub sender: String,
    pub recipient: String,
}

/// Indexing record: one address a transaction touched, with where it was
/// first seen.
#[derive(PartialEq, Eq, Debug, Clone)]
pub struct Address {
    pub account_address: String,
    pub first_appearance_tx: u64,
    pub first_appearance_time: u64,
}

/// The move-call records derived from `cmds[0..i]`.
pub open spec fn move_calls_prefix(
    cmds: Seq<SuiCommand>,
    digest: u64,
    checkpoint: u64,
    epoch: u64,
    sender: String,
    i: int,
) -> Seq<MoveCall>
    decreases i,
{
    if i <= 0 {
        Seq::empty()
    } else {
        let rest = move_calls_prefix(cmds, digest, checkpoint, epoch, sender, i - 1);
        match cmds[i - 1] {
            SuiCommand::MoveCall { package, module, function } => rest.push(
                MoveCall {
                    transaction_digest: digest,
                    checkpoint_sequence_number: checkpoint,
                    epoch,
                    sender,
                    move_package: package,
                    move_module: module,
                    move_function: function,
                },
            ),
            SuiCommand::Other => rest,
        }
    }
}

/// The recipient records derived from `refs[0..i]`: one per object that an
/// address owns.
pub open spec fn recipients_prefix(
    refs: Seq<OwnedObjectRef>,
    digest: u64,
    checkpoint: u64,
    epoch: u64,
    sender: String,
    i: int,
) -> Seq<Recipient>
    decreases i,
{
    if i <= 0 {
        Seq::empty()
    } else {
        let rest = recipients_prefix(refs, digest, checkpoint, epoch, sender, i - 1);
        match refs[i - 1].owner {
            Owner::AddressOwner { address } => rest.push(
                Recipient {
                    transaction_digest: digest,
                    checkpoint_sequence_number: checkpoint,
                    epoch,
                    sender,
                    recipient: address,
                },
            ),
            Owner::Other => rest,
        }
    }
}

pub open spec fn recipients_of(
    refs: Seq<OwnedObjectRef>,
    digest: u64,
    checkpoint: u64,
    epoch: u64,
    sender: String,
) -> Seq<Recipient> {
    recipients_prefix(refs, digest, checkpoint, epoch, sender, refs.len() as int)
}

/// The recipient records of a whole set of effects: created, then mutated,
/// then unwrapped objects.
pub open spec fn effects_recipients(
    effects: SuiTransactionEffects,
    digest: u64,
    checkpoint: u64,
    epoch: u64,
    sender: String,
) -> Seq<Recipient> {
    recipients_of(effects.created@, digest, checkpoint, epoch, sender) + recipients_of(
        effects.mutated@,
        digest,
        checkpoint,
        epoch,
        sender,
    ) + recipients_of(effects.unwrapped@, digest, checkpoint, epoch, sender)
}

/// Appends the recipient records of `refs` to `out`.
fn push_recipients(
    out: &mut Vec<Recipient>,
    refs: &Vec<OwnedObjectRef>,
    digest: u64,
    checkpoint: u64,
    epoch: u64,
    sender: &String,
)
    ensures
        final(out)@ == old(out)@ + recipients_of(refs@, digest, checkpoint, epoch, *sender),
{
    let n = refs.len();
    let mut i: usize = 0;
    while i < n
        invariant
            i <= n,
            n == refs@.len(),
            out@ == old(out)@ + recipients_prefix(refs@, digest, checkpoint, epoch, *sender, i as int),
        decreases n - i,
    {
        match &refs[i].owner {
            Owner::AddressOwner { address } => {
                out.push(
                    Recipient {
                        transaction_digest: digest,
                        checkpoint_sequence_number: checkpoint,
                        epoch,
                        sender: sender.clone(),
                        recipient: address.clone(),
                    },
                );
            },
            Owner::Other => {},
        }
        i = i + 1;
    }
}

impl CheckpointTransactionResponse {
    /// The input-object records of this transaction. The input objects
    /// themselves come out of the serialized transaction, which an outside
    /// decoder unpacks; this derives one record per decoded kind.
    pub fn get_input_objects(&self, epoch: u64, kinds: &Vec<InputObjectKind>) -> (r: Vec<
        InputObject,
    >)
        ensures
            r@.len() == kinds@.len(),
            forall|i: int|
                0 <= i < kinds@.len() ==> r@[i] == (InputObject {
                    transaction_digest: self.digest,
                    checkpoint_sequence_number: self.checkpoint,
                    epoch,
                    object_id: kinds@[i].object_id,
                    object_version: kinds@[i].object_version,
                }),
    {
        let n = kinds.len();
        let mut out: Vec<InputObject> = Vec::new();
        let mut i: usize = 0;
        while i < n
            invariant
                i <= n,
                n == kinds@.len(),
                out@.len() == i,
                forall|j: int|
                    0 <= j < i ==> out@[j] == (InputObject {
                        transaction_digest: self.digest,
                        checkpoint_sequence_number: self.checkpoint,
                        epoch,
                        object_id: kinds@[j].object_id,
                        object_version: kinds@[j].object_version,
                    }),
            decreases n - i,
        {
            out.push(
                InputObject {
                    transaction_digest: self.digest,
                    checkpoint_sequence_number: self.checkpoint,
                    epoch,
                    object_id: kinds[i].object_id.clone(),
                    object_version: kinds[i].object_version,
                },
            );
            i = i + 1;
        }
        out
    }

    /// The move-call records of this transaction: one per move call of a
    /// programmable transaction; any other kind yields none.
    pub fn get_move_calls(&self, epoch: u64, checkpoint: u64) -> (r: Vec<MoveCall>)
        ensures
            self.transaction.data.kind matches SuiTransactionKind::ProgrammableTransaction {
                commands,
            } ==> r@ == move_calls_prefix(
                commands@,
                self.digest,
                checkpoint,
                epoch,
                self.transaction.data.sender,
                commands@.len() as int,
            ),
            self.transaction.data.kind is Other ==> r@.len() == 0,
    {
        let mut out: Vec<MoveCall> = Vec::new();
        match &self.transaction.data.kind {
            SuiTransactionKind::ProgrammableTransaction { commands } => {
                let n = commands.len();
                let mut i: usize = 0;
                while i < n
                    invariant
                        i <= n,
                        n == commands@.len(),
                        out@ == move_calls_prefix(
                            commands@,
                            self.digest,
                            checkpoint,
                            epoch,
                            self.transaction.data.sender,
                            i as int,
                        ),
                    decreases n - i,
                {
                    match &commands[i] {
                        SuiCommand::MoveCall { package, module, function } => {
                            out.push(
                                MoveCall {
                                    transaction_digest: self.digest,
                                    checkpoint_sequence_number: checkpoint,
                                    epoch,
                                    sender: self.transaction.data.sender.clone(),
                                    move_package: package.clone(),
                                    move_module: module.clone(),
                                    move_function: function.clone(),
                                },
                            );
                        },
                        SuiCommand::Other => {},
                    }
                    i = i + 1;
                }
            },
            SuiTransactionKind::Other => {},
        }
        out
    }

    /// The recipient records of this transaction: one per created, mutated
    /// or unwrapped object that an address owns, in that order.
    pub fn get_recipients(&self, epoch: u64, checkpoint: u64) -> (r: Vec<Recipient>)
        ensures
            r@ == effects_recipients(
                self.effects,
                self.digest,
                checkpoint,
                epoch,
                self.transaction.data.sender,
            ),
    {
        let mut out: Vec<Recipient> = Vec::new();
        push_recipients(
            &mut out,
            &self.effects.created,
            self.digest,
            checkpoint,
            epoch,
            &self.transaction.data.sender,
        );
        push_recipients(
            &mut out,
            &self.effects.mutated,
            self.digest,
            checkpoint,
            epoch,
            &self.transaction.data.sender,
        );
        push_recipients(
            &mut out,
            &self.effects.unwrapped,
            self.digest,
            checkpoint,
            epoch,
            &self.transaction.data.sender,
        );
        out
    }

    /// The address records of this transaction: every recipient, then the
    /// sender, each stamped with this transaction and its timestamp.
    pub fn get_addresses(&self, epoch: u64, checkpoint: u64) -> (r: Vec<Address>)
        ensures
            ({
                let recips = effects_recipients(
                    self.effects,
                    self.digest,
                    checkpoint,
                    epoch,
                    self.transaction.data.sender,
                );
                &&& r@.len() == recips.len() + 1
                &&& forall|i: int|
                    0 <= i < recips.len() ==> r@[i] == (Address {
                        account_address: recips[i].recipient,
                        first_appearance_tx: self.digest,
                        first_appearance_time: self.timestamp_ms,
                    })
                &&& r@[recips.len() as int] == (Address {
                    account_address: self.transaction.data.sender,
                    first_appearance_tx: self.digest,
                    first_appearance_time: self.timestamp_ms,
                })
            }),
    {
        let recipients = self.get_recipients(epoch, checkpoint);
        let ghost recips = effects_recipients(
            self.effects,
            self.digest,
            checkpoint,
            epoch,
            self.transaction.data.sender,
        );
        let n = recipients.len();
        let mut out: Vec<Address> = Vec::new();
        let mut i: usize = 0;
        while i < n
            invariant
                i <= n,
                n == recipients@.len(),
                recipients@ == recips,
                out@.len() == i,
                forall|j: int|
                    0 <= j < i ==> out@[j] == (Address {
                        account_address: recips[j].recipient,
                        first_appearance_tx: self.digest,
                        first_appearance_time: self.timestamp_ms,
                    }),
            decreases n - i,
        {
            out.push(
                Address {
                    account_address: recipients[i].recipient.clone(),
                    first_appearance_tx: self.digest,
                    first_appearance_time: self.timestamp_ms,
                },
            );
            i = i + 1;
        }
        out.push(
            Address {
                account_address: self.transaction.data.sender.clone(),
                first_appearance_tx: self.digest,
                first_appearance_time: self.timestamp_ms,
            },
        );
        out
    }
}

/// The shape in which a transaction response is held before it is persisted:
/// the union of the fast-path and the checkpoint shapes, everything beyond
/// the core parts optional.
#[derive(Debug, Clone)]
pub struct TemporaryTransactionResponseStore {
    pub digest: u64,
    pub transaction: SuiTransaction,
    pub raw_transaction: Vec<u8>,
    pub effects: SuiTransactionEffects,
    pub events: SuiTransactionEvents,
    pub object_changes: Option<Vec<u64>>,
    pub balance_changes: Option<Vec<u64>>,
    pub timestamp_ms: Option<u64>,
    pub confirmed_local_execution: Option<bool>,
    pub checkpoint: Option<u64>,
}

impl From<FastPathTransactionResponse> for TemporaryTransactionResponseStore {
    /// A fast-path record carries its changes but no checkpoint data yet.
    fn from(value: FastPathTransactionResponse) -> (r: Self) {
        let FastPathTransactionResponse {
            digest,
            transaction,
            raw_transaction,
            effects,
            events,
            object_changes,
            balance_changes,
            confirmed_local_execution,
        } = value;
        TemporaryTransactionResponseStore {
            digest,
            transaction,
            raw_transaction,
            effects,
            events,
            object_changes: Some(object_changes),
            balance_changes: Some(balance_changes),
            timestamp_ms: None,
            confirmed_local_execution,
            checkpoint: None,
        }
    }
}

impl vstd::std_specs::convert::FromSpecImpl<FastPathTransactionResponse> for TemporaryTransactionResponseStore {
    open spec fn obeys_from_spec() -> bool {
        true
    }

    open spec fn from_spec(value: FastPathTransactionResponse) -> Self {
        TemporaryTransactionResponseStore {
            digest: value.digest,
            transaction: value.transaction,
            raw_transaction: value.raw_transaction,
            effects: value.effects,
            events: value.events,
            object_changes: Some(value.object_changes),
            balance_changes: Some(value.balance_changes),
            timestamp_ms: None,
            confirmed_local_execution: value.confirmed_local_execution,
            checkpoint: None,
        }
    }
}

impl From<CheckpointTransactionResponse> for TemporaryTransactionResponseStore {
    /// A checkpoint record carries its timestamp and position but no
    /// changes.
    fn from(value: CheckpointTransactionResponse) -> (r: Self) {
        let CheckpointTransactionResponse {
            digest,
            transaction,
            raw_transaction,
            effects,
            events,
            timestamp_ms,
            confirmed_local_execution,
            checkpoint,
        } = value;
        TemporaryTransactionResponseStore {
            digest,
            transaction,
            raw_transaction,
            effects,
            events,
            object_changes: None,
            balance_changes: None,
            timestamp_ms: Some(timestamp_ms),
            confirmed_local_execution,
            checkpoint: Some(checkpoint),
        }
    }
}

impl vstd::std_specs::convert::FromSpecImpl<CheckpointTransactionResponse> for TemporaryTransactionResponseStore {
    open spec fn obeys_from_spec() -> bool {
        true
    }

    open spec fn from_spec(value: CheckpointTransactionResponse) -> Self {
        TemporaryTransactionResponseStore {
            digest: value.digest,
            transaction: value.transaction,
            raw_transaction: value.raw_transaction,
            effects: value.effects,
            events: value.events,
            object_changes: None,
            balance_changes: None,
            timestamp_ms: Some(value.timestamp_ms),
            confirmed_local_execution: value.confirmed_local_execution,
            checkpoint: Some(value.checkpoint),
        }
    }
}

/// The first fault a fast-path validation finds in an incomplete response.
pub open spec fn fast_path_error_spec(response: SuiTransactionResponse) -> ResponseError {
    if response.transaction is None {
        ResponseError::MissingTransaction
    } else if response.effects is None {
        ResponseError::MissingEffects
    } else if response.events is None {
        ResponseError::MissingEvents
    } else if response.object_changes is None {
        ResponseError::MissingObjectChanges
    } else if response.balance_changes is None {
        ResponseError::MissingBalanceChanges
    } else {
        ResponseError::CarriesErrors
    }
}

/// The data path of a fast-path execution: validate the response as a
/// fast-path record and lay it out for the store, which at this point has
/// neither a timestamp nor a checkpoint. What the response lacks is reported
/// exactly as the validation does.
pub fn fast_path_store(response: SuiTransactionResponse) -> (r: Result<
    TemporaryTransactionResponseStore,
    ResponseError,
>)
    ensures
        r is Ok <==> response.transaction is Some && response.effects is Some
            && response.events is Some && response.object_changes is Some
            && response.balance_changes is Some && response.errors@.len() == 0,
        r matches Err(e) ==> e == fast_path_error_spec(response),
        r matches Ok(store) ==> {
            &&& store.digest == response.digest
            &&& response.transaction == Some(store.transaction)
            &&& store.raw_transaction == response.raw_transaction
            &&& response.effects == Some(store.effects)
            &&& response.events == Some(store.events)
            &&& store.object_changes == response.object_changes
            &&& store.balance_changes == response.balance_changes
            &&& store.timestamp_ms is None
            &&& store.confirmed_local_execution == response.confirmed_local_execution
            &&& store.checkpoint is None
        },
{
    match FastPathTransactionResponse::try_from(response) {
        Ok(fast) => Ok(TemporaryTransactionResponseStore::from(fast)),
        Err(e) => Err(e),
    }
}

/// A full response paired with what its reader asked to see.
#[derive(Debug, Clone)]
pub struct SuiTransactionResponseWithOptions {
    pub response: SuiTransactionResponse,
    pub options: SuiTransactionResponseOptions,
}

impl SuiTransactionResponse {
    /// Masks a response down to the parts its reader asked for; an unshown
    /// serialized transaction becomes empty, and errors are dropped.
    pub fn from(value: SuiTransactionResponseWithOptions) -> (r: Self)
        ensures
            r.digest == value.response.digest,
            r.transaction == if value.options.show_input {
                value.response.transaction
            } else {
                None
            },
            r.raw_transaction@ == if value.options.show_raw_input {
                value.response.raw_transaction@
            } else {
                Seq::<u8>::empty()
            },
            r.effects == if value.options.show_effects {
                value.response.effects
            } else {
                None
            },
            r.events == if value.options.show_events {
                value.response.events
            } else {
                None
            },
            r.object_changes == if value.options.show_object_changes {
                value.response.object_changes
            } else {
                None
            },
            r.balance_changes == if value.options.show_balance_changes {
                value.response.balance_changes
            } else {
                None
            },
            r.timestamp_ms == value.response.timestamp_ms,
            r.confirmed_local_execution == value.response.confirmed_local_execution,
            r.checkpoint == value.response.checkpoint,
            r.errors@ == Seq::<String>::empty(),
    {
        let SuiTransactionResponseWithOptions { response, options } = value;
        SuiTransactionResponse {
            digest: response.digest,
            transaction: if options.show_input {
                response.transaction
            } else {
                None
            },
            raw_transaction: if options.show_raw_input {
                response.raw_transaction
            } else {
                Vec::new()
            },
            effects: if options.show_effects {
                response.effects
            } else {
                None
            },
            events: if options.show_events {
                response.events
            } else {
                None
            },
            object_changes: if options.show_object_changes {
                response.object_changes
            } else {
                None
            },
            balance_changes: if options.show_balance_changes {
                response.balance_changes
            } else {
                None
            },
            timestamp_ms: response.timestamp_ms,
            confirmed_local_execution: response.confirmed_local_execution,
            checkpoint: response.checkpoint,
            errors: Vec::new(),
        }
    }
}

} // verus!
