//! Building the funding transaction of a channel: the wallet drafts a
//! transaction with one output, funds it and signs it, and the result goes to
//! the protocol engine only if it pays the requested value to the requested
//! script exactly once.

use crate::bytes::{hex_decoded, is_hex, same_slice, to_vec};
use crate::protocol::{outputs_of, Action, FundingError, Network, Outcome, Reply, TxOutput};
use crate::trusted::{
    decode_outputs, decoded_outputs, is_witness_program, segwit_address, segwit_address_of,
};
use vstd::prelude::*;
use vstd::string::StringSliceAdditionalSpecFns;
use vstd::utf8::encode_utf8;

verus! {

/// What the protocol engine asks for when a channel is ready to be funded.
#[derive(Clone, Debug, PartialEq, Eq)]
pub struct FundingRequest {
    pub temporary_channel_id: [u8; 32],
    pub channel_value_satoshis: u64,
    pub output_script: Vec<u8>,
}

/// The terms of a funding request as plain values.
pub ghost struct FundingTerms {
    pub temporary_channel_id: [u8; 32],
    pub channel_value_satoshis: u64,
    pub output_script: Seq<u8>,
}

impl View for FundingRequest {
    type V = FundingTerms;

    open spec fn view(&self) -> FundingTerms {
        FundingTerms {
            temporary_channel_id: self.temporary_channel_id,
            channel_value_satoshis: self.channel_value_satoshis,
            output_script: self.output_script@,
        }
    }
}

/// The reply that a funding attempt waits for.
#[derive(Clone, Copy, Debug, PartialEq, Eq, Structural)]
pub enum FundingStage {
    /// The wallet drafts the transaction.
    Drafting,
    /// The wallet adds inputs and change.
    Funding,
    /// The wallet signs.
    Signing,
    /// The protocol engine takes the transaction.
    HandingOver,
}

/// A funding attempt under way.
#[derive(Debug, PartialEq, Eq)]
pub struct FundingBuilder {
    request: FundingRequest,
    stage: FundingStage,
}

/// How a funding attempt goes on: with an action to carry out, or not at all.
#[derive(Debug, PartialEq, Eq)]
pub enum FundingStep {
    Ask(FundingBuilder, Action),
    Done(Outcome),
}

/// Whether an output pays `value` to `script`.
pub open spec fn pays(output: (u64, Seq<u8>), value: u64, script: Seq<u8>) -> bool {
    output.0 == value && output.1 == script
}

/// How many of the outputs pay `value` to `script`.
pub open spec fn paying_count(outputs: Seq<(u64, Seq<u8>)>, value: u64, script: Seq<u8>) -> nat
    decreases outputs.len(),
{
    if outputs.len() == 0 {
        0
    } else {
        paying_count(outputs.drop_last(), value, script) + if pays(outputs.last(), value, script) {
            1nat
        } else {
            0nat
        }
    }
}

/// What a signed transaction is worth to a funding attempt: its bytes, where
/// the wallet signed every input, the text is hexadecimal, the bytes decode to
/// a transaction and exactly one output pays `value` to `script`; else the
/// reason to give up, the first that applies.
pub open spec fn accepted_transaction(
    text: Seq<u8>,
    complete: bool,
    value: u64,
    script: Seq<u8>,
) -> Result<Seq<u8>, FundingError> {
    if !complete {
        Err(FundingError::IncompleteSignature)
    } else if !is_hex(text) {
        Err(FundingError::MalformedTransaction)
    } else {
        match decoded_outputs(hex_decoded(text)) {
            None => Err(FundingError::MalformedTransaction),
            Some(outputs) => if paying_count(outputs, value, script) == 1 {
                Ok(hex_decoded(text))
            } else {
                Err(FundingError::OutputMismatch)
            },
        }
    }
}

/// The address to fund: the Bech32 address of the output script on the
/// network. There is none on signet, and none for a script that is no witness
/// program.
pub fn funding_address(script: &Vec<u8>, network: Network) -> (address: Result<
    String,
    FundingError,
>)
    ensures
        address is Ok <==> network.address_network() is Some && is_witness_program(script@),
        address matches Ok(a) ==> a@ == segwit_address(script@, network.address_network().unwrap()),
        address matches Err(e) ==> e == if network.address_network() is None {
            FundingError::UnsupportedNetwork
        } else {
            FundingError::NotSegwit
        },
{
    let address_network = match network.to_address_network() {
        Some(n) => n,
        None => {
            return Err(FundingError::UnsupportedNetwork);
        },
    };
    // The encoder takes no version byte that stands for 32 or more, so a
    // script that is framed as a program but carries one is turned away here.
    let n = script.len();
    if n >= 4 && n - 2 == script[1] as usize {
        let first = script[0];
        let version = if first > 0x50 {
            first - 0x50
        } else {
            first
        };
        if version >= 32 {
            return Err(FundingError::NotSegwit);
        }
    }
    match segwit_address_of(script, address_network) {
        Some(a) => Ok(a),
        None => Err(FundingError::NotSegwit),
    }
}

/// Counts the outputs that pay `value` to `script`.
pub fn count_paying(outputs: &Vec<TxOutput>, value: u64, script: &Vec<u8>) -> (count: usize)
    ensures
        count == paying_count(outputs_of(outputs@), value, script@),
{
    let ghost all = outputs_of(outputs@);
    let mut count: usize = 0;
    let mut i: usize = 0;
    while i < outputs.len()
        invariant
            i <= outputs@.len(),
            all == outputs_of(outputs@),
            count <= i,
            count == paying_count(all.subrange(0, i as int), value, script@),
        decreases outputs@.len() - i,
    {
        proof {
            assert(all.subrange(0, i as int + 1).drop_last() =~= all.subrange(0, i as int));
        }
        if outputs[i].value == value && same_slice(
            outputs[i].script_pubkey.as_slice(),
            script.as_slice(),
        ) {
            count += 1;
        }
        i += 1;
    }
    assert(all.subrange(0, i as int) =~= all);
    count
}

/// Checks what the wallet signed. The transaction's bytes come back where the
/// wallet signed every input, the text decodes from hexadecimal to a
/// transaction, and exactly one of its outputs pays `value` to `script`.
pub fn check_signed(hex: &str, complete: bool, value: u64, script: &Vec<u8>) -> (checked: Result<
    Vec<u8>,
    FundingError,
>)
    ensures
        match accepted_transaction(hex.spec_bytes(), complete, value, script@) {
            Ok(bytes) => checked matches Ok(b) && b@ == bytes,
            Err(reason) => checked == Err::<Vec<u8>, FundingError>(reason),
        },
{
    if !complete {
        return Err(FundingError::IncompleteSignature);
    }
    let bytes = match to_vec(hex) {
        Some(b) => b,
        None => {
            return Err(FundingError::MalformedTransaction);
        },
    };
    let outputs = match decode_outputs(&bytes) {
        Some(o) => o,
        None => {
            return Err(FundingError::MalformedTransaction);
        },
    };
    if count_paying(&outputs, value, script) == 1 {
        Ok(bytes)
    } else {
        Err(FundingError::OutputMismatch)
    }
}

impl FundingBuilder {
    /// The terms of the request that is being served.
    pub closed spec fn terms(self) -> FundingTerms {
        self.request@
    }

    /// The reply that the attempt waits for.
    pub closed spec fn stage(self) -> FundingStage {
        self.stage
    }

    /// How many replies the attempt can still take.
    pub open spec fn replies_left(self) -> int {
        match self.stage() {
            FundingStage::Drafting => 4,
            FundingStage::Funding => 3,
            FundingStage::Signing => 2,
            FundingStage::HandingOver => 1,
        }
    }

    /// The outcome of giving up for `reason`.
    pub open spec fn aborted(request: FundingTerms, reason: FundingError) -> Outcome {
        Outcome::FundingAborted { temporary_channel_id: request.temporary_channel_id, reason }
    }

    /// How an attempt begins: with the request to draft a transaction whose one
    /// output pays the channel value to the address of the output script, or
    /// not at all where there is no such address.
    pub open spec fn start_spec(request: FundingTerms, network: Network, next: FundingStep) -> bool {
        if network.address_network() is None {
            next == FundingStep::Done(Self::aborted(request, FundingError::UnsupportedNetwork))
        } else if !is_witness_program(request.output_script) {
            next == FundingStep::Done(Self::aborted(request, FundingError::NotSegwit))
        } else {
            &&& next matches FundingStep::Ask(
                builder,
                Action::CreateRawTransaction { address, amount_sat },
            )
            &&& address@ == segwit_address(
                request.output_script,
                network.address_network().unwrap(),
            )
            &&& amount_sat == request.channel_value_satoshis
            &&& builder.terms() == request
            &&& builder.stage() == FundingStage::Drafting
        }
    }

    /// How an attempt goes on after a reply. A reply of another kind than the
    /// one awaited, a change position other than first or second, an
    /// incomplete signature, a transaction that does not decode or does not pay
    /// the request exactly once, and a refusal by the engine each end the attempt.
    pub open spec fn step_spec(self, reply: Reply, next: FundingStep) -> bool {
        let request = self.terms();
        match (self.stage(), reply) {
            (FundingStage::Drafting, Reply::RawTransaction { hex }) => {
                &&& next matches FundingStep::Ask(builder, Action::FundRawTransaction { raw_tx })
                &&& raw_tx == hex
                &&& builder.terms() == request
                &&& builder.stage() == FundingStage::Funding
            },
            (FundingStage::Funding, Reply::Funded { hex, changepos }) => {
                if changepos == 0 || changepos == 1 {
                    &&& next matches FundingStep::Ask(
                        builder,
                        Action::SignRawTransaction { funded_tx },
                    )
                    &&& funded_tx == hex
                    &&& builder.terms() == request
                    &&& builder.stage() == FundingStage::Signing
                } else {
                    next == FundingStep::Done(
                        Self::aborted(request, FundingError::InvalidChangePosition),
                    )
                }
            },
            (FundingStage::Signing, Reply::Signed { hex, complete }) => {
                match accepted_transaction(
                    encode_utf8(hex@),
                    complete,
                    request.channel_value_satoshis,
                    request.output_script,
                ) {
                    Ok(bytes) => {
                        &&& next matches FundingStep::Ask(
                            builder,
                            Action::FundingGenerated { temporary_channel_id, transaction },
                        )
                        &&& temporary_channel_id == request.temporary_channel_id
                        &&& transaction@ == bytes
                        &&& builder.terms() == request
                        &&& builder.stage() == FundingStage::HandingOver
                    },
                    Err(reason) => next == FundingStep::Done(Self::aborted(request, reason)),
                }
            },
            (FundingStage::HandingOver, Reply::FundingTaken { accepted }) => {
                if accepted {
                    next == FundingStep::Done(
                        Outcome::FundingHandedOver {
                            temporary_channel_id: request.temporary_channel_id,
                        },
                    )
                } else {
                    next == FundingStep::Done(Self::aborted(request, FundingError::Rejected))
                }
            },
            (FundingStage::HandingOver, _) => next == FundingStep::Done(
                Self::aborted(request, FundingError::Rejected),
            ),
            _ => next == FundingStep::Done(Self::aborted(request, FundingError::WalletFailed)),
        }
    }

    /// The request that is being served.
    pub fn request(&self) -> (request: &FundingRequest)
        ensures
            request@ == self.terms(),
    {
        &self.request
    }

    /// The reply that the attempt waits for.
    pub fn awaits(&self) -> (stage: FundingStage)
        ensures
            stage == self.stage(),
    {
        self.stage
    }

    /// Begins a funding attempt.
    pub fn start(request: FundingRequest, network: Network) -> (next: FundingStep)
        ensures
            Self::start_spec(request@, network, next),
    {
        match funding_address(&request.output_script, network) {
            Ok(address) => {
                let amount_sat = request.channel_value_satoshis;
                FundingStep::Ask(
                    FundingBuilder { request, stage: FundingStage::Drafting },
                    Action::CreateRawTransaction { address, amount_sat },
                )
            },
            Err(reason) => FundingStep::Done(
                Outcome::FundingAborted {
                    temporary_channel_id: request.temporary_channel_id,
                    reason,
                },
            ),
        }
    }

    /// Takes the reply to the last action and says how the attempt goes on.
    pub fn step(self, reply: Reply) -> (next: FundingStep)
        ensures
            self.step_spec(reply, next),
    {
        let id = self.request.temporary_channel_id;
        match self.stage {
            FundingStage::Drafting => match reply {
                Reply::RawTransaction { hex } => FundingStep::Ask(
                    FundingBuilder { request: self.request, stage: FundingStage::Funding },
                    Action::FundRawTransaction { raw_tx: hex },
                ),
                _ => FundingStep::Done(
                    Outcome::FundingAborted {
                        temporary_channel_id: id,
                        reason: FundingError::WalletFailed,
                    },
                ),
            },
            FundingStage::Funding => match reply {
                Reply::Funded { hex, changepos } => {
                    if changepos == 0 || changepos == 1 {
                        FundingStep::Ask(
                            FundingBuilder { request: self.request, stage: FundingStage::Signing },
                            Action::SignRawTransaction { funded_tx: hex },
                        )
                    } else {
                        FundingStep::Done(
                            Outcome::FundingAborted {
                                temporary_channel_id: id,
                                reason: FundingError::InvalidChangePosition,
                            },
                        )
                    }
                },
                _ => FundingStep::Done(
                    Outcome::FundingAborted {
                        temporary_channel_id: id,
                        reason: FundingError::WalletFailed,
                    },
                ),
            },
            FundingStage::Signing => match reply {
                Reply::Signed { hex, complete } => {
                    match check_signed(
                        hex.as_str(),
                        complete,
                        self.request.channel_value_satoshis,
                        &self.request.output_script,
                    ) {
                        Ok(transaction) => FundingStep::Ask(
                            FundingBuilder {
                                request: self.request,
                                stage: FundingStage::HandingOver,
                            },
                            Action::FundingGenerated { temporary_channel_id: id, transaction },
                        ),
                        Err(reason) => FundingStep::Done(
                            Outcome::FundingAborted { temporary_channel_id: id, reason },
                        ),
                    }
                },
                _ => FundingStep::Done(
                    Outcome::FundingAborted {
                        temporary_channel_id: id,
                        reason: FundingError::WalletFailed,
                    },
                ),
            },
            FundingStage::HandingOver => match reply {
                Reply::FundingTaken { accepted: true } => FundingStep::Done(
                    Outcome::FundingHandedOver { temporary_channel_id: id },
                ),
                _ => FundingStep::Done(
                    Outcome::FundingAborted {
                        temporary_channel_id: id,
                        reason: FundingError::Rejected,
                    },
                ),
            },
        }
    }
}

/// Whether `next` hands a transaction to the protocol engine that decodes and
/// pays the request exactly once.
pub open spec fn hands_over_paid(request: FundingTerms, next: FundingStep) -> bool {
    &&& next matches FundingStep::Ask(
        _,
        Action::FundingGenerated { temporary_channel_id, transaction },
    )
    &&& temporary_channel_id == request.temporary_channel_id
    &&& decoded_outputs(transaction@) matches Some(outputs)
    &&& paying_count(outputs, request.channel_value_satoshis, request.output_script) == 1
}

/// A transaction is handed to the protocol engine only after the wallet signed
/// it completely, and then it decodes to a transaction of which exactly one
/// output pays the requested value to the requested script; in every other
/// case the step hands over nothing.
pub proof fn law_handed_over_pays_once(builder: FundingBuilder, reply: Reply, next: FundingStep)
    requires
        builder.step_spec(reply, next),
        next matches FundingStep::Ask(_, Action::FundingGenerated { .. }),
    ensures
        builder.stage() == FundingStage::Signing,
        reply matches Reply::Signed { complete, .. } ==> complete,
        reply is Signed,
        hands_over_paid(builder.terms(), next),
{
}

/// Beginning an attempt never hands a transaction over.
pub proof fn law_start_hands_over_nothing(
    request: FundingTerms,
    network: Network,
    next: FundingStep,
)
    requires
        FundingBuilder::start_spec(request, network, next),
    ensures
        !(next matches FundingStep::Ask(_, Action::FundingGenerated { .. })),
{
}

} // verus!
