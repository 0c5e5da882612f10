//! The values that pass between this library and the code that runs it: the
//! events that the protocol engine and the chain monitor surface, the actions
//! that the library asks for, the replies to them, and what became of each event.

use vstd::prelude::*;

verus! {

/// How long the dispatcher waits for a signal before it looks for events
/// anyway, in milliseconds. A signal that was missed costs no more than this.
pub const SIGNAL_TIMEOUT_MILLIS: u64 = 1000;

/// How long the dispatcher pauses after a batch, in milliseconds, so that a
/// burst of signals is answered by one drain.
pub const PAUSE_MILLIS: u64 = 1000;

/// The chain that the node runs on.
#[derive(Clone, Copy, Debug, PartialEq, Eq, Structural)]
pub enum Network {
    Bitcoin,
    Testnet,
    Regtest,
    Signet,
}

/// A chain on which witness programs have a Bech32 address here.
#[derive(Clone, Copy, Debug, PartialEq, Eq, Structural)]
pub enum AddressNetwork {
    Bitcoin,
    Testnet,
    Regtest,
}

impl Network {
    /// The address network of a chain. Signet has none.
    pub open spec fn address_network(self) -> Option<AddressNetwork> {
        match self {
            Network::Bitcoin => Some(AddressNetwork::Bitcoin),
            Network::Testnet => Some(AddressNetwork::Testnet),
            Network::Regtest => Some(AddressNetwork::Regtest),
            Network::Signet => None,
        }
    }

    /// The address network of a chain, if it has one.
    pub fn to_address_network(self) -> (network: Option<AddressNetwork>)
        ensures
            network == self.address_network(),
    {
        match self {
            Network::Bitcoin => Some(AddressNetwork::Bitcoin),
            Network::Testnet => Some(AddressNetwork::Testnet),
            Network::Regtest => Some(AddressNetwork::Regtest),
            Network::Signet => None,
        }
    }
}

/// How soon a transaction should confirm, for fee estimation.
#[derive(Clone, Copy, Debug, PartialEq, Eq, Structural)]
pub enum ConfirmationTarget {
    Background,
    Normal,
    HighPriority,
}

/// An event drained from the protocol engine or the chain monitor.
#[derive(Clone, Debug, PartialEq, Eq)]
pub enum Event {
    /// A channel waits for its funding transaction.
    FundingGenerationReady {
        temporary_channel_id: [u8; 32],
        channel_value_satoshis: u64,
        output_script: Vec<u8>,
    },
    /// A payment arrived and can be claimed with the preimage.
    PaymentReceived {
        payment_hash: [u8; 32],
        payment_preimage: [u8; 32],
        payment_secret: Option<[u8; 32]>,
        amt: u64,
    },
    /// A payment that was sent has completed and revealed its preimage.
    PaymentSent { payment_preimage: [u8; 32] },
    /// A payment that was sent has failed.
    PaymentFailed { payment_hash: [u8; 32], rejected_by_dest: bool },
    /// Payments wait to be forwarded, no sooner than after the given time.
    PendingHTLCsForwardable { time_forwardable_millis: u64 },
    /// Outputs have become spendable. Each is held in its serialized form.
    SpendableOutputs { outputs: Vec<Vec<u8>> },
}

/// Why a funding attempt was given up.
#[derive(Clone, Copy, Debug, PartialEq, Eq, Structural)]
pub enum FundingError {
    /// No address can be derived on this network.
    UnsupportedNetwork,
    /// The requested output script is no witness program.
    NotSegwit,
    /// The wallet did not answer a request as asked.
    WalletFailed,
    /// The wallet put the change output somewhere else than first or second.
    InvalidChangePosition,
    /// The wallet could not sign every input.
    IncompleteSignature,
    /// The signed transaction is no hexadecimal text or does not decode.
    MalformedTransaction,
    /// The signed transaction does not pay the requested value to the
    /// requested script exactly once.
    OutputMismatch,
    /// The protocol engine did not take the transaction.
    Rejected,
}

/// Why a sweep was given up.
#[derive(Clone, Copy, Debug, PartialEq, Eq, Structural)]
pub enum SweepError {
    /// The wallet gave no destination address.
    NoAddress,
    /// No fee rate could be had.
    NoFeeRate,
    /// The spending transaction could not be built and signed.
    SigningFailed,
}

/// What became of one event.
#[derive(Clone, Copy, Debug, PartialEq, Eq)]
pub enum Outcome {
    FundingHandedOver { temporary_channel_id: [u8; 32] },
    FundingAborted { temporary_channel_id: [u8; 32], reason: FundingError },
    PaymentClaimed { payment_hash: [u8; 32], amt: u64 },
    PaymentClaimFailed { payment_hash: [u8; 32] },
    /// A send completed; `known` says whether the payment was on file.
    PaymentSent { payment_hash: [u8; 32], payment_preimage: [u8; 32], known: bool },
    /// A send failed; `known` says whether the payment was on file.
    PaymentFailed { payment_hash: [u8; 32], rejected_by_dest: bool, known: bool },
    ForwardsScheduled { delay_millis: u64 },
    OutputsSwept,
    SweepAborted { cause: SweepError },
}

/// Work that the library asks of the code that runs it. Each action is
/// answered by one [`Reply`].
#[derive(Clone, Debug, PartialEq, Eq)]
pub enum Action {
    /// Wait until new events are signalled, but no longer than the timeout.
    AwaitSignal { timeout_millis: u64 },
    /// Take all pending events from the protocol engine, then all from the chain monitor.
    DrainEvents,
    /// Have the wallet draft a transaction with this one output.
    CreateRawTransaction { address: String, amount_sat: u64 },
    /// Have the wallet add inputs, and change, to the draft.
    FundRawTransaction { raw_tx: String },
    /// Have the wallet sign the funded transaction.
    SignRawTransaction { funded_tx: String },
    /// Give the serialized funding transaction to the protocol engine.
    FundingGenerated { temporary_channel_id: [u8; 32], transaction: Vec<u8> },
    /// Claim a received payment from the protocol engine.
    ClaimFunds { payment_preimage: [u8; 32] },
    /// Have the protocol engine forward pending payments after this delay,
    /// without holding up anything else.
    ForwardAfter { delay_millis: u64 },
    /// Ask the wallet for a fresh address.
    GetNewAddress,
    /// Ask for the current fee rate for this confirmation target.
    EstimateFeeRate { target: ConfirmationTarget },
    /// Have the keys build and sign one transaction that spends exactly these
    /// outputs to the destination at the fee rate.
    SpendOutputs { outputs: Vec<Vec<u8>>, destination_script: Vec<u8>, feerate_sat_per_kw: u32 },
    /// Broadcast a serialized transaction.
    Broadcast { transaction: Vec<u8> },
    /// Tell the operator what became of an event.
    Report { outcome: Outcome },
    /// Pause before waiting for the next signal.
    Sleep { millis: u64 },
    /// Stop: the notification channel is closed.
    Stop,
}

/// The answer to an [`Action`].
#[derive(Clone, Debug, PartialEq, Eq)]
pub enum Reply {
    /// New events were signalled.
    Signal,
    /// The wait ran out with no signal.
    Timeout,
    /// The notification channel is closed for good.
    Closed,
    /// The pending events of the protocol engine and of the chain monitor,
    /// each in the order in which they were emitted.
    Events { engine: Vec<Event>, monitor: Vec<Event> },
    /// The draft transaction, in hexadecimal.
    RawTransaction { hex: String },
    /// The funded transaction, in hexadecimal, and where the wallet put the change.
    Funded { hex: String, changepos: i64 },
    /// The signed transaction, in hexadecimal, and whether every input is signed.
    Signed { hex: String, complete: bool },
    /// Whether the protocol engine took the funding transaction.
    FundingTaken { accepted: bool },
    /// Whether the protocol engine accepted the claim.
    Claimed { accepted: bool },
    /// The script that pays to the wallet's fresh address.
    Address { script_pubkey: Vec<u8> },
    /// The fee rate, in satoshis per 1000 weight units.
    FeeRate { sat_per_kw: u32 },
    /// The signed spending transaction, serialized.
    Spend { transaction: Vec<u8> },
    /// The action was carried out and has nothing to tell.
    Done,
    /// The action could not be carried out.
    Failed,
}

/// One output of a transaction: its value in satoshis and the script it pays to.
#[derive(Clone, Debug, PartialEq, Eq)]
pub struct TxOutput {
    pub value: u64,
    pub script_pubkey: Vec<u8>,
}

impl View for TxOutput {
    type V = (u64, Seq<u8>);

    open spec fn view(&self) -> (u64, Seq<u8>) {
        (self.value, self.script_pubkey@)
    }
}

/// The outputs of a list, each as a value and the bytes of a script.
pub open spec fn outputs_of(list: Seq<TxOutput>) -> Seq<(u64, Seq<u8>)> {
    Seq::new(list.len(), |i: int| list[i]@)
}

} // verus!
