//! Sweeping spendable outputs back to the wallet: a fresh address, a fee rate,
//! one signed transaction that spends all of them, and its broadcast.

use crate::protocol::{Action, ConfirmationTarget, Outcome, Reply, SweepError};
use vstd::prelude::*;

verus! {

/// A sweep under way, by the reply that it waits for. It holds the outputs
/// only until they have gone out to be spent.
#[derive(Debug, PartialEq, Eq)]
pub enum Sweeper {
    /// The wallet names a destination.
    Addressing { outputs: Vec<Vec<u8>> },
    /// The fee rate is estimated.
    Pricing { outputs: Vec<Vec<u8>>, destination_script: Vec<u8> },
    /// The spending transaction is built and signed.
    Signing,
    /// The transaction is broadcast.
    Broadcasting,
}

/// How a sweep goes on: with an action to carry out, or not at all.
#[derive(Debug, PartialEq, Eq)]
pub enum SweepStep {
    Ask(Sweeper, Action),
    Done(Outcome),
}

impl Sweeper {
    /// How many replies the sweep can still take.
    pub open spec fn replies_left(self) -> int {
        match self {
            Sweeper::Addressing { .. } => 4,
            Sweeper::Pricing { .. } => 3,
            Sweeper::Signing => 2,
            Sweeper::Broadcasting => 1,
        }
    }

    /// How a sweep goes on after a reply. Each stage takes one kind of reply;
    /// any other ends the sweep, and what was not signed is never broadcast.
    pub open spec fn step_spec(self, reply: Reply, next: SweepStep) -> bool {
        match (self, reply) {
            (Sweeper::Addressing { outputs }, Reply::Address { script_pubkey }) => {
                &&& next matches SweepStep::Ask(
                    Sweeper::Pricing { outputs: kept, destination_script },
                    Action::EstimateFeeRate { target },
                )
                &&& kept == outputs
                &&& destination_script == script_pubkey
                &&& target == ConfirmationTarget::Normal
            },
            (Sweeper::Addressing { .. }, _) => next == SweepStep::Done(
                Outcome::SweepAborted { cause: SweepError::NoAddress },
            ),
            (Sweeper::Pricing { outputs, destination_script }, Reply::FeeRate { sat_per_kw }) => {
                &&& next matches SweepStep::Ask(
                    Sweeper::Signing,
                    Action::SpendOutputs { outputs: spent, destination_script: to, feerate_sat_per_kw },
                )
                &&& spent == outputs
                &&& to == destination_script
                &&& feerate_sat_per_kw == sat_per_kw
            },
            (Sweeper::Pricing { .. }, _) => next == SweepStep::Done(
                Outcome::SweepAborted { cause: SweepError::NoFeeRate },
            ),
            (Sweeper::Signing, Reply::Spend { transaction }) => {
                &&& next matches SweepStep::Ask(
                    Sweeper::Broadcasting,
                    Action::Broadcast { transaction: sent },
                )
                &&& sent == transaction
            },
            (Sweeper::Signing, _) => next == SweepStep::Done(
                Outcome::SweepAborted { cause: SweepError::SigningFailed },
            ),
            (Sweeper::Broadcasting, _) => next == SweepStep::Done(Outcome::OutputsSwept),
        }
    }

    /// Begins a sweep of these outputs by asking the wallet for a fresh address.
    pub fn start(outputs: Vec<Vec<u8>>) -> (next: SweepStep)
        ensures
            next == SweepStep::Ask(Sweeper::Addressing { outputs }, Action::GetNewAddress),
    {
        SweepStep::Ask(Sweeper::Addressing { outputs }, Action::GetNewAddress)
    }

    /// Takes the reply to the last action and says how the sweep goes on.
    pub fn step(self, reply: Reply) -> (next: SweepStep)
        ensures
            self.step_spec(reply, next),
    {
        match self {
            Sweeper::Addressing { outputs } => match reply {
                Reply::Address { script_pubkey } => SweepStep::Ask(
                    Sweeper::Pricing { outputs, destination_script: script_pubkey },
                    Action::EstimateFeeRate { target: ConfirmationTarget::Normal },
                ),
                _ => SweepStep::Done(Outcome::SweepAborted { cause: SweepError::NoAddress }),
            },
            Sweeper::Pricing { outputs, destination_script } => match reply {
                Reply::FeeRate { sat_per_kw } => SweepStep::Ask(
                    Sweeper::Signing,
                    Action::SpendOutputs {
                        outputs,
                        destination_script,
                        feerate_sat_per_kw: sat_per_kw,
                    },
                ),
                _ => SweepStep::Done(Outcome::SweepAborted { cause: SweepError::NoFeeRate }),
            },
            Sweeper::Signing => match reply {
                Reply::Spend { transaction } => SweepStep::Ask(
                    Sweeper::Broadcasting,
                    Action::Broadcast { transaction },
                ),
                _ => SweepStep::Done(Outcome::SweepAborted { cause: SweepError::SigningFailed }),
            },
            Sweeper::Broadcasting => SweepStep::Done(Outcome::OutputsSwept),
        }
    }
}

/// Nothing is broadcast but the transaction that the keys signed: a step asks
/// for a broadcast only when the sweep was waiting for the signed transaction
/// and got it, and then it is that transaction.
pub proof fn law_broadcast_only_signed(sweeper: Sweeper, reply: Reply, next: SweepStep)
    requires
        sweeper.step_spec(reply, next),
        next matches SweepStep::Ask(_, Action::Broadcast { .. }),
    ensures
        sweeper is Signing,
        reply is Spend,
        next matches SweepStep::Ask(_, Action::Broadcast { transaction }) ==> reply
            == (Reply::Spend { transaction }),
{
}

/// The spending request covers the outputs of the sweep, all of them and no
/// others, in their order.
pub proof fn law_spend_covers_outputs(sweeper: Sweeper, reply: Reply, next: SweepStep)
    requires
        sweeper.step_spec(reply, next),
        next matches SweepStep::Ask(_, Action::SpendOutputs { .. }),
    ensures
        sweeper is Pricing,
        next matches SweepStep::Ask(_, Action::SpendOutputs { outputs, .. }) ==> sweeper
            matches Sweeper::Pricing { outputs: held, .. } && held == outputs,
{
}

} // verus!
