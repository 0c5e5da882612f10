//! The event dispatcher: it waits for a signal, drains the pending events of
//! the protocol engine and of the chain monitor into one batch, and handles
//! the batch in order, one event at a time, before it pauses and waits again.
//!
//! The dispatcher decides and the code that runs it acts: each call of
//! [`Dispatcher::step`] takes the reply to the last action and gives the next.

use crate::bytes::{byte_strings, copy_byte_strings, copy_bytes};
use crate::forwarding::{delay_allowed, forwarding_delay};
use crate::funding::{FundingBuilder, FundingRequest, FundingStep, FundingTerms};
use crate::payments::{after_receipt, after_transition, bytes_of, table_advances, HTLCStatus};
use crate::protocol::{
    Action, Event, Network, Outcome, Reply, PAUSE_MILLIS, SIGNAL_TIMEOUT_MILLIS,
};
use crate::store::PaymentStore;
use crate::sweeper::{SweepStep, Sweeper};
use crate::trusted::sha256;
use vstd::prelude::*;

verus! {

/// What the dispatcher is waiting for.
#[derive(Debug, PartialEq, Eq)]
pub enum Phase {
    /// A signal that events may be pending.
    Waiting,
    /// The pending events.
    Draining,
    /// A reply to the funding attempt for the current event.
    Funding(FundingBuilder),
    /// Whether the protocol engine accepted the claim of the current event.
    Claiming {
        payment_hash: [u8; 32],
        payment_preimage: [u8; 32],
        payment_secret: Option<[u8; 32]>,
        amt: u64,
    },
    /// Word that the forwarding was scheduled.
    Forwarding { delay_millis: u64 },
    /// A reply to the sweep for the current event.
    Sweeping(Sweeper),
    /// Word that the outcome of the last event was reported.
    Reporting,
    /// The end of the pause after a batch.
    Sleeping,
    /// Nothing: the notification channel is closed.
    Shutdown,
}

/// The dispatcher's state machine. The batch of the current cycle stays as it
/// was drained; the outcomes grow by one with each event that is done.
pub struct Dispatcher {
    network: Network,
    phase: Phase,
    batch: Vec<Event>,
    outcomes: Vec<Outcome>,
}

/// A cycle's progress: the batch that was drained and the outcomes of the
/// events handled so far, in the order of the batch.
pub ghost struct CycleState {
    pub network: Network,
    pub batch: Seq<Event>,
    pub outcomes: Seq<Outcome>,
}

/// Whether an outcome is one that handling this event can have.
pub open spec fn outcome_fits(event: Event, outcome: Outcome) -> bool {
    match event {
        Event::FundingGenerationReady { temporary_channel_id, .. } => match outcome {
            Outcome::FundingHandedOver { temporary_channel_id: id } => id == temporary_channel_id,
            Outcome::FundingAborted { temporary_channel_id: id, .. } => id == temporary_channel_id,
            _ => false,
        },
        Event::PaymentReceived { payment_hash, amt, .. } => match outcome {
            Outcome::PaymentClaimed { payment_hash: h, amt: a } => h == payment_hash && a == amt,
            Outcome::PaymentClaimFailed { payment_hash: h } => h == payment_hash,
            _ => false,
        },
        Event::PaymentSent { payment_preimage } => match outcome {
            Outcome::PaymentSent { payment_hash, payment_preimage: p, .. } => p == payment_preimage
                && payment_hash@ == sha256(payment_preimage@),
            _ => false,
        },
        Event::PaymentFailed { payment_hash, rejected_by_dest } => match outcome {
            Outcome::PaymentFailed { payment_hash: h, rejected_by_dest: r, .. } => h == payment_hash
                && r == rejected_by_dest,
            _ => false,
        },
        Event::PendingHTLCsForwardable { time_forwardable_millis } => match outcome {
            Outcome::ForwardsScheduled { delay_millis } => delay_allowed(
                time_forwardable_millis,
                delay_millis,
            ),
            _ => false,
        },
        Event::SpendableOutputs { .. } => match outcome {
            Outcome::OutputsSwept => true,
            Outcome::SweepAborted { .. } => true,
            _ => false,
        },
    }
}

/// The batch that a reply to the drain brings: the events of the protocol
/// engine, then those of the chain monitor; nothing where the drain failed.
pub open spec fn drained(reply: Reply) -> Seq<Event> {
    match reply {
        Reply::Events { engine, monitor } => engine@ + monitor@,
        _ => Seq::empty(),
    }
}

/// Whether the reply says that the protocol engine accepted a claim.
pub open spec fn claim_accepted(reply: Reply) -> bool {
    reply matches Reply::Claimed { accepted } && accepted
}

/// Both payment tables are as they were.
pub open spec fn store_kept(before: PaymentStore, after: PaymentStore) -> bool {
    &&& after.inbound_records() == before.inbound_records()
    &&& after.outbound_records() == before.outbound_records()
}

/// The dispatcher goes on within the cycle: it asks for `request` and waits in `phase`.
pub open spec fn goes_on(
    before: CycleState,
    phase: Phase,
    request: Action,
    after: Dispatcher,
    action: Action,
) -> bool {
    &&& after.phase() == phase
    &&& after.cycle() == before
    &&& action == request
}

/// The current event is done with `outcome`: the outcome joins the others and
/// is reported.
pub open spec fn finishes(
    before: CycleState,
    outcome: Outcome,
    after: Dispatcher,
    action: Action,
) -> bool {
    &&& after.phase() == Phase::Reporting
    &&& after.cycle() == (CycleState {
        network: before.network,
        batch: before.batch,
        outcomes: before.outcomes.push(outcome),
    })
    &&& action == (Action::Report { outcome })
}

/// The step of a funding attempt that led the dispatcher to where it is.
pub open spec fn funding_step_taken(after: Dispatcher, action: Action) -> FundingStep {
    match after.phase() {
        Phase::Funding(builder) => FundingStep::Ask(builder, action),
        _ => FundingStep::Done(after.cycle().outcomes.last()),
    }
}

/// The step of a sweep that led the dispatcher to where it is.
pub open spec fn sweep_step_taken(after: Dispatcher, action: Action) -> SweepStep {
    match after.phase() {
        Phase::Sweeping(sweeper) => SweepStep::Ask(sweeper, action),
        _ => SweepStep::Done(after.cycle().outcomes.last()),
    }
}

/// The dispatcher follows a funding attempt: it passes the attempt's action
/// on, or is done with the event when the attempt is.
pub open spec fn follows_funding(
    before: CycleState,
    next: FundingStep,
    after: Dispatcher,
    action: Action,
) -> bool {
    match next {
        FundingStep::Ask(builder, request) => goes_on(
            before,
            Phase::Funding(builder),
            request,
            after,
            action,
        ),
        FundingStep::Done(outcome) => finishes(before, outcome, after, action),
    }
}

/// The dispatcher follows a sweep: it passes the sweep's action on, or is done
/// with the event when the sweep is.
pub open spec fn follows_sweep(
    before: CycleState,
    next: SweepStep,
    after: Dispatcher,
    action: Action,
) -> bool {
    match next {
        SweepStep::Ask(sweeper, request) => goes_on(
            before,
            Phase::Sweeping(sweeper),
            request,
            after,
            action,
        ),
        SweepStep::Done(outcome) => finishes(before, outcome, after, action),
    }
}

/// How the dispatcher takes up the next event of the batch, or ends the cycle
/// with a pause when none is left.
///
/// A funding request starts a funding attempt and a batch of spendable outputs
/// a sweep. A received payment is claimed from the protocol engine. A
/// completed send marks the outbound payment whose hash is the digest of the
/// revealed preimage as succeeded, a failed send marks the payment as failed,
/// and both are done at once. Forwarding is scheduled after a random delay.
pub open spec fn begins(
    before: CycleState,
    store_before: PaymentStore,
    after: Dispatcher,
    store_after: PaymentStore,
    action: Action,
) -> bool {
    if before.outcomes.len() >= before.batch.len() {
        &&& store_kept(store_before, store_after)
        &&& goes_on(before, Phase::Sleeping, Action::Sleep { millis: PAUSE_MILLIS }, after, action)
    } else {
        match before.batch[before.outcomes.len() as int] {
            Event::FundingGenerationReady {
                temporary_channel_id,
                channel_value_satoshis,
                output_script,
            } => {
                let terms = FundingTerms {
                    temporary_channel_id,
                    channel_value_satoshis,
                    output_script: output_script@,
                };
                let next = funding_step_taken(after, action);
                &&& store_kept(store_before, store_after)
                &&& FundingBuilder::start_spec(terms, before.network, next)
                &&& follows_funding(before, next, after, action)
            },
            Event::PaymentReceived { payment_hash, payment_preimage, payment_secret, amt } => {
                &&& store_kept(store_before, store_after)
                &&& goes_on(
                    before,
                    Phase::Claiming { payment_hash, payment_preimage, payment_secret, amt },
                    Action::ClaimFunds { payment_preimage },
                    after,
                    action,
                )
            },
            Event::PaymentSent { payment_preimage } => {
                let hash = sha256(payment_preimage@);
                let known = store_before.outbound_records().contains_key(hash);
                &&& store_after.inbound_records() == store_before.inbound_records()
                &&& store_after.outbound_records() == if known {
                    store_before.outbound_records().insert(
                        hash,
                        after_transition(
                            store_before.outbound_records()[hash],
                            HTLCStatus::Succeeded,
                            Some(payment_preimage@),
                        ),
                    )
                } else {
                    store_before.outbound_records()
                }
                &&& after.cycle().outcomes.last() matches Outcome::PaymentSent {
                    payment_hash,
                    payment_preimage: revealed,
                    known: on_file,
                }
                &&& payment_hash@ == hash
                &&& revealed == payment_preimage
                &&& on_file == known
                &&& finishes(before, after.cycle().outcomes.last(), after, action)
            },
            Event::PaymentFailed { payment_hash, rejected_by_dest } => {
                let known = store_before.outbound_records().contains_key(payment_hash@);
                &&& store_after.inbound_records() == store_before.inbound_records()
                &&& store_after.outbound_records() == if known {
                    store_before.outbound_records().insert(
                        payment_hash@,
                        after_transition(
                            store_before.outbound_records()[payment_hash@],
                            HTLCStatus::Failed,
                            None,
                        ),
                    )
                } else {
                    store_before.outbound_records()
                }
                &&& finishes(
                    before,
                    Outcome::PaymentFailed { payment_hash, rejected_by_dest, known },
                    after,
                    action,
                )
            },
            Event::PendingHTLCsForwardable { time_forwardable_millis } => {
                &&& store_kept(store_before, store_after)
                &&& after.phase() matches Phase::Forwarding { delay_millis }
                &&& delay_allowed(time_forwardable_millis, delay_millis)
                &&& goes_on(
                    before,
                    after.phase(),
                    Action::ForwardAfter { delay_millis },
                    after,
                    action,
                )
            },
            Event::SpendableOutputs { outputs } => {
                &&& store_kept(store_before, store_after)
                &&& after.phase() matches Phase::Sweeping(Sweeper::Addressing { outputs: held })
                &&& byte_strings(held@) == byte_strings(outputs@)
                &&& goes_on(before, after.phase(), Action::GetNewAddress, after, action)
            },
        }
    }
}

/// What one step of the dispatcher does, by what it was waiting for.
pub open spec fn step_spec(
    before: Dispatcher,
    store_before: PaymentStore,
    reply: Reply,
    after: Dispatcher,
    store_after: PaymentStore,
    action: Action,
) -> bool {
    let cycle = before.cycle();
    match before.phase() {
        Phase::Waiting => {
            &&& store_kept(store_before, store_after)
            &&& if reply is Closed {
                goes_on(cycle, Phase::Shutdown, Action::Stop, after, action)
            } else {
                goes_on(cycle, Phase::Draining, Action::DrainEvents, after, action)
            }
        },
        Phase::Draining => begins(
            CycleState { network: cycle.network, batch: drained(reply), outcomes: Seq::empty() },
            store_before,
            after,
            store_after,
            action,
        ),
        Phase::Funding(builder) => {
            let next = funding_step_taken(after, action);
            &&& store_kept(store_before, store_after)
            &&& builder.step_spec(reply, next)
            &&& follows_funding(cycle, next, after, action)
        },
        Phase::Claiming { payment_hash, payment_preimage, payment_secret, amt } => {
            let accepted = claim_accepted(reply);
            &&& store_after.outbound_records() == store_before.outbound_records()
            &&& store_after.inbound_records() == store_before.inbound_records().insert(
                payment_hash@,
                after_receipt(
                    store_before.inbound_records().get(payment_hash@),
                    payment_preimage@,
                    bytes_of(payment_secret),
                    amt,
                    accepted,
                ),
            )
            &&& finishes(
                cycle,
                if accepted {
                    Outcome::PaymentClaimed { payment_hash, amt }
                } else {
                    Outcome::PaymentClaimFailed { payment_hash }
                },
                after,
                action,
            )
        },
        Phase::Forwarding { delay_millis } => {
            &&& store_kept(store_before, store_after)
            &&& finishes(cycle, Outcome::ForwardsScheduled { delay_millis }, after, action)
        },
        Phase::Sweeping(sweeper) => {
            let next = sweep_step_taken(after, action);
            &&& store_kept(store_before, store_after)
            &&& sweeper.step_spec(reply, next)
            &&& follows_sweep(cycle, next, after, action)
        },
        Phase::Reporting => begins(cycle, store_before, after, store_after, action),
        Phase::Sleeping => {
            &&& store_kept(store_before, store_after)
            &&& goes_on(
                cycle,
                Phase::Waiting,
                Action::AwaitSignal { timeout_millis: SIGNAL_TIMEOUT_MILLIS },
                after,
                action,
            )
        },
        Phase::Shutdown => {
            &&& store_kept(store_before, store_after)
            &&& goes_on(cycle, Phase::Shutdown, Action::Stop, after, action)
        },
    }
}

impl Dispatcher {
    /// What the dispatcher is waiting for.
    pub closed spec fn phase(self) -> Phase {
        self.phase
    }

    /// The batch of the current cycle and the outcomes so far.
    pub closed spec fn cycle(self) -> CycleState {
        CycleState { network: self.network, batch: self.batch@, outcomes: self.outcomes@ }
    }

    /// Whether the dispatcher is between the drain and the pause of a cycle.
    pub open spec fn in_cycle(self) -> bool {
        match self.phase() {
            Phase::Funding(_) => true,
            Phase::Claiming { .. } => true,
            Phase::Forwarding { .. } => true,
            Phase::Sweeping(_) => true,
            Phase::Reporting => true,
            _ => false,
        }
    }

    /// A bound on the replies that the dispatcher still takes before it pauses.
    pub open spec fn steps_left(self) -> int {
        let rest = 6 * (self.cycle().batch.len() - self.cycle().outcomes.len());
        match self.phase() {
            Phase::Funding(builder) => rest + builder.replies_left() - 5,
            Phase::Claiming { .. } => rest - 4,
            Phase::Forwarding { .. } => rest - 4,
            Phase::Sweeping(sweeper) => rest + sweeper.replies_left() - 5,
            Phase::Reporting => rest + 1,
            _ => rest,
        }
    }

    spec fn cycle_wf(self) -> bool {
        &&& self.outcomes@.len() <= self.batch@.len()
        &&& forall|i: int|
            0 <= i < self.outcomes@.len() ==> outcome_fits(
                self.batch@[i],
                #[trigger] self.outcomes@[i],
            )
    }

    spec fn current(self) -> Event {
        self.batch@[self.outcomes@.len() as int]
    }

    /// The outcomes so far are those of the first events of the batch, one
    /// each, and what the dispatcher waits for belongs to the event that comes next.
    pub closed spec fn wf(self) -> bool {
        &&& self.cycle_wf()
        &&& match self.phase {
            Phase::Funding(builder) => {
                &&& self.outcomes@.len() < self.batch@.len()
                &&& self.current() matches Event::FundingGenerationReady {
                    temporary_channel_id,
                    ..
                }
                &&& builder.terms().temporary_channel_id == temporary_channel_id
            },
            Phase::Claiming { payment_hash, payment_preimage, payment_secret, amt } => {
                &&& self.outcomes@.len() < self.batch@.len()
                &&& self.current() == (Event::PaymentReceived {
                    payment_hash,
                    payment_preimage,
                    payment_secret,
                    amt,
                })
            },
            Phase::Forwarding { delay_millis } => {
                &&& self.outcomes@.len() < self.batch@.len()
                &&& self.current() matches Event::PendingHTLCsForwardable {
                    time_forwardable_millis,
                }
                &&& delay_allowed(time_forwardable_millis, delay_millis)
            },
            Phase::Sweeping(_) => {
                &&& self.outcomes@.len() < self.batch@.len()
                &&& self.current() is SpendableOutputs
            },
            Phase::Reporting => true,
            _ => self.outcomes@.len() == self.batch@.len(),
        }
    }
}

impl Dispatcher {
    /// A dispatcher for a node on `network`, with the action to begin with:
    /// to wait for the first signal.
    pub fn new(network: Network) -> (start: (Dispatcher, Action))
        ensures
            start.0.wf(),
            start.0.phase() == Phase::Waiting,
            start.0.cycle() == (CycleState {
                network,
                batch: Seq::empty(),
                outcomes: Seq::empty(),
            }),
            start.1 == (Action::AwaitSignal { timeout_millis: SIGNAL_TIMEOUT_MILLIS }),
    {
        let dispatcher = Dispatcher {
            network,
            phase: Phase::Waiting,
            batch: Vec::new(),
            outcomes: Vec::new(),
        };
        (dispatcher, Action::AwaitSignal { timeout_millis: SIGNAL_TIMEOUT_MILLIS })
    }

    /// Whether the notification channel was found closed.
    pub fn is_shutdown(&self) -> (stopped: bool)
        ensures
            stopped == (self.phase() is Shutdown),
    {
        match self.phase {
            Phase::Shutdown => true,
            _ => false,
        }
    }

    /// The outcomes of the events handled so far in this cycle, in their order.
    pub fn outcomes(&self) -> (list: &Vec<Outcome>)
        ensures
            list@ == self.cycle().outcomes,
    {
        &self.outcomes
    }

    /// How many events of this cycle's batch wait to be handled.
    pub fn pending(&self) -> (count: usize)
        requires
            self.wf(),
        ensures
            count == self.cycle().batch.len() - self.cycle().outcomes.len(),
    {
        self.batch.len() - self.outcomes.len()
    }

    fn finish(&mut self, outcome: Outcome) -> (action: Action)
        requires
            old(self).cycle_wf(),
            old(self).outcomes@.len() < old(self).batch@.len(),
            outcome_fits(old(self).current(), outcome),
        ensures
            final(self).wf(),
            finishes(old(self).cycle(), outcome, *final(self), action),
    {
        self.outcomes.push(outcome);
        self.phase = Phase::Reporting;
        Action::Report { outcome }
    }

    fn follow_funding(&mut self, next: FundingStep) -> (action: Action)
        requires
            old(self).cycle_wf(),
            old(self).outcomes@.len() < old(self).batch@.len(),
            old(self).current() matches Event::FundingGenerationReady { temporary_channel_id, .. }
                && match next {
                FundingStep::Ask(builder, _) => builder.terms().temporary_channel_id
                    == temporary_channel_id,
                FundingStep::Done(outcome) => outcome_fits(old(self).current(), outcome),
            },
        ensures
            final(self).wf(),
            funding_step_taken(*final(self), action) == next,
            follows_funding(old(self).cycle(), next, *final(self), action),
    {
        match next {
            FundingStep::Ask(builder, request) => {
                self.phase = Phase::Funding(builder);
                request
            },
            FundingStep::Done(outcome) => self.finish(outcome),
        }
    }

    fn follow_sweep(&mut self, next: SweepStep) -> (action: Action)
        requires
            old(self).cycle_wf(),
            old(self).outcomes@.len() < old(self).batch@.len(),
            old(self).current() is SpendableOutputs,
            next matches SweepStep::Done(outcome) ==> outcome_fits(old(self).current(), outcome),
        ensures
            final(self).wf(),
            sweep_step_taken(*final(self), action) == next,
            follows_sweep(old(self).cycle(), next, *final(self), action),
    {
        match next {
            SweepStep::Ask(sweeper, request) => {
                self.phase = Phase::Sweeping(sweeper);
                request
            },
            SweepStep::Done(outcome) => self.finish(outcome),
        }
    }

    fn begin(&mut self, store: &mut PaymentStore) -> (action: Action)
        requires
            old(self).cycle_wf(),
            old(store).wf(),
        ensures
            final(self).wf(),
            final(store).wf(),
            begins(old(self).cycle(), *old(store), *final(self), *final(store), action),
            table_advances(old(store).inbound_records(), final(store).inbound_records()),
            table_advances(old(store).outbound_records(), final(store).outbound_records()),
            0 <= final(self).steps_left() <= 6 * (old(self).batch@.len() - old(self).outcomes@.len()),
    {
        let index = self.outcomes.len();
        if index >= self.batch.len() {
            self.phase = Phase::Sleeping;
            return Action::Sleep { millis: PAUSE_MILLIS };
        }
        match &self.batch[index] {
            Event::FundingGenerationReady {
                temporary_channel_id,
                channel_value_satoshis,
                output_script,
            } => {
                let request = FundingRequest {
                    temporary_channel_id: *temporary_channel_id,
                    channel_value_satoshis: *channel_value_satoshis,
                    output_script: copy_bytes(output_script),
                };
                let next = FundingBuilder::start(request, self.network);
                self.follow_funding(next)
            },
            Event::PaymentReceived { payment_hash, payment_preimage, payment_secret, amt } => {
                let preimage = *payment_preimage;
                self.phase = Phase::Claiming {
                    payment_hash: *payment_hash,
                    payment_preimage: preimage,
                    payment_secret: *payment_secret,
                    amt: *amt,
                };
                Action::ClaimFunds { payment_preimage: preimage }
            },
            Event::PaymentSent { payment_preimage } => {
                let preimage = *payment_preimage;
                let (hash, known) = store.payment_sent(&preimage);
                self.finish(
                    Outcome::PaymentSent { payment_hash: hash, payment_preimage: preimage, known },
                )
            },
            Event::PaymentFailed { payment_hash, rejected_by_dest } => {
                let hash = *payment_hash;
                let rejected = *rejected_by_dest;
                let known = store.payment_failed(&hash);
                self.finish(
                    Outcome::PaymentFailed { payment_hash: hash, rejected_by_dest: rejected, known },
                )
            },
            Event::PendingHTLCsForwardable { time_forwardable_millis } => {
                let delay_millis = forwarding_delay(*time_forwardable_millis);
                self.phase = Phase::Forwarding { delay_millis };
                Action::ForwardAfter { delay_millis }
            },
            Event::SpendableOutputs { outputs } => {
                let next = Sweeper::start(copy_byte_strings(outputs));
                self.follow_sweep(next)
            },
        }
    }

    /// Takes the reply to the last action and gives the next action.
    ///
    /// While a batch is being handled the batch itself never changes, each
    /// reply brings the pause nearer, and the pause is asked for only when
    /// every event of the batch has its outcome. A reply of another kind than
    /// the one awaited counts as a failure of the action.
    pub fn step(&mut self, store: &mut PaymentStore, reply: Reply) -> (action: Action)
        requires
            old(self).wf(),
            old(store).wf(),
        ensures
            final(self).wf(),
            final(store).wf(),
            step_spec(*old(self), *old(store), reply, *final(self), *final(store), action),
            table_advances(old(store).inbound_records(), final(store).inbound_records()),
            table_advances(old(store).outbound_records(), final(store).outbound_records()),
            old(self).in_cycle() ==> final(self).cycle().batch == old(self).cycle().batch,
            old(self).in_cycle() ==> 0 <= final(self).steps_left() < old(self).steps_left(),
            action is Sleep ==> final(self).cycle().batch.len() == final(self).cycle().outcomes.len(),
    {
        let mut phase = Phase::Reporting;
        core::mem::swap(&mut self.phase, &mut phase);
        match phase {
            Phase::Waiting => match reply {
                Reply::Closed => {
                    self.phase = Phase::Shutdown;
                    Action::Stop
                },
                _ => {
                    self.phase = Phase::Draining;
                    Action::DrainEvents
                },
            },
            Phase::Draining => {
                match reply {
                    Reply::Events { engine, monitor } => {
                        let mut batch = engine;
                        let mut rest = monitor;
                        batch.append(&mut rest);
                        self.batch = batch;
                    },
                    _ => {
                        self.batch = Vec::new();
                    },
                }
                self.outcomes = Vec::new();
                self.begin(store)
            },
            Phase::Funding(builder) => {
                let next = builder.step(reply);
                self.follow_funding(next)
            },
            Phase::Claiming { payment_hash, payment_preimage, payment_secret, amt } => {
                let accepted = match reply {
                    Reply::Claimed { accepted } => accepted,
                    _ => false,
                };
                store.payment_received(&payment_hash, &payment_preimage, payment_secret, amt, accepted);
                let outcome = if accepted {
                    Outcome::PaymentClaimed { payment_hash, amt }
                } else {
                    Outcome::PaymentClaimFailed { payment_hash }
                };
                self.finish(outcome)
            },
            Phase::Forwarding { delay_millis } => self.finish(
                Outcome::ForwardsScheduled { delay_millis },
            ),
            Phase::Sweeping(sweeper) => {
                let next = sweeper.step(reply);
                self.follow_sweep(next)
            },
            Phase::Reporting => self.begin(store),
            Phase::Sleeping => {
                self.phase = Phase::Waiting;
                Action::AwaitSignal { timeout_millis: SIGNAL_TIMEOUT_MILLIS }
            },
            Phase::Shutdown => {
                self.phase = Phase::Shutdown;
                Action::Stop
            },
        }
    }
}

/// No event of a batch is lost: the outcomes so far belong to the first
/// events of the batch, one to each and in the batch's order, and outside the
/// handling of a batch every event of the last batch has its outcome.
pub proof fn law_every_event_has_its_outcome(dispatcher: Dispatcher)
    requires
        dispatcher.wf(),
    ensures
        dispatcher.cycle().outcomes.len() <= dispatcher.cycle().batch.len(),
        forall|i: int|
            0 <= i < dispatcher.cycle().outcomes.len() ==> outcome_fits(
                dispatcher.cycle().batch[i],
                #[trigger] dispatcher.cycle().outcomes[i],
            ),
        !dispatcher.in_cycle() ==> dispatcher.cycle().outcomes.len()
            == dispatcher.cycle().batch.len(),
        dispatcher.steps_left() >= 0,
{
}

/// Whatever the replies, a step keeps the cycle in order: the outcomes still
/// belong to the first events of the batch, a batch under way is not replaced
/// and loses no outcome, no new events are asked for before the pause, each
/// reply brings the pause nearer, and the pause comes only when every event
/// of the batch has its outcome.
pub proof fn law_step_keeps_the_cycle_in_order(
    before: Dispatcher,
    store_before: PaymentStore,
    reply: Reply,
    after: Dispatcher,
    store_after: PaymentStore,
    action: Action,
)
    requires
        before.wf(),
        step_spec(before, store_before, reply, after, store_after, action),
    ensures
        after.wf(),
        before.in_cycle() ==> after.cycle().batch == before.cycle().batch,
        before.in_cycle() ==> before.cycle().outcomes.is_prefix_of(after.cycle().outcomes),
        before.in_cycle() ==> after.cycle().outcomes.len() <= before.cycle().outcomes.len() + 1,
        before.in_cycle() ==> 0 <= after.steps_left() < before.steps_left(),
        before.phase() is Draining ==> after.cycle().batch == drained(reply),
        before.phase() is Draining ==> 0 <= after.steps_left() <= 6 * drained(reply).len(),
        before.in_cycle() || before.phase() is Draining ==> after.in_cycle() || action is Sleep,
        before.in_cycle() || before.phase() is Draining ==> !(action is DrainEvents) && !(action
            is AwaitSignal),
        action is Sleep ==> after.cycle().outcomes.len() == after.cycle().batch.len(),
{
}

/// Whatever the replies, a step loses no payment and moves none backwards: a
/// payment that has succeeded is still on file as succeeded after it.
pub proof fn law_step_loses_no_payment(
    before: Dispatcher,
    store_before: PaymentStore,
    reply: Reply,
    after: Dispatcher,
    store_after: PaymentStore,
    action: Action,
)
    requires
        step_spec(before, store_before, reply, after, store_after, action),
    ensures
        table_advances(store_before.inbound_records(), store_after.inbound_records()),
        table_advances(store_before.outbound_records(), store_after.outbound_records()),
{
}

/// A run of the dispatcher: each state with the payment store beside it, the
/// reply that it was given and the action that it answered with. There is one
/// state more than there are replies.
pub open spec fn is_run(
    states: Seq<(Dispatcher, PaymentStore)>,
    replies: Seq<Reply>,
    actions: Seq<Action>,
) -> bool {
    &&& states.len() == replies.len() + 1
    &&& actions.len() == replies.len()
    &&& forall|i: int| 0 <= i < replies.len() ==> #[trigger] is_step_of_run(states, replies, actions, i)
}

/// Whether the step at one place of a run is a step of the dispatcher.
pub open spec fn is_step_of_run(
    states: Seq<(Dispatcher, PaymentStore)>,
    replies: Seq<Reply>,
    actions: Seq<Action>,
    i: int,
) -> bool {
    step_spec(states[i].0, states[i].1, replies[i], states[i + 1].0, states[i + 1].1, actions[i])
}

proof fn lemma_cycle_under_way(
    states: Seq<(Dispatcher, PaymentStore)>,
    replies: Seq<Reply>,
    actions: Seq<Action>,
    upto: int,
)
    requires
        is_run(states, replies, actions),
        1 <= upto <= replies.len(),
        states[0].0.wf(),
        states[0].0.phase() is Draining,
        forall|i: int| 0 <= i < upto - 1 ==> !(#[trigger] actions[i] is Sleep),
    ensures
        states[upto].0.wf(),
        states[upto].0.cycle().batch == drained(replies[0]),
        states[upto].0.in_cycle() || actions[upto - 1] is Sleep,
        0 <= states[upto].0.steps_left() <= 6 * drained(replies[0]).len() - (upto - 1),
    decreases upto,
{
    if upto > 1 {
        lemma_cycle_under_way(states, replies, actions, upto - 1);
    }
    assert(is_step_of_run(states, replies, actions, upto - 1));
    law_step_keeps_the_cycle_in_order(
        states[upto - 1].0,
        states[upto - 1].1,
        replies[upto - 1],
        states[upto].0,
        states[upto].1,
        actions[upto - 1],
    );
}

/// No event is lost between the drain and the pause. Take any run that begins
/// with the reply to a drain and ends with the first pause after it: then
/// every event that the drain brought has been handled, in the order of the
/// drain, each with an outcome of its own, and the run took no more than six
/// replies for each event and one for the drain.
pub proof fn law_cycle_handles_every_drained_event(
    states: Seq<(Dispatcher, PaymentStore)>,
    replies: Seq<Reply>,
    actions: Seq<Action>,
)
    requires
        is_run(states, replies, actions),
        replies.len() > 0,
        states[0].0.wf(),
        states[0].0.phase() is Draining,
        actions.last() is Sleep,
        forall|i: int| 0 <= i < actions.len() - 1 ==> !(#[trigger] actions[i] is Sleep),
    ensures
        states.last().0.cycle().batch == drained(replies[0]),
        states.last().0.cycle().outcomes.len() == drained(replies[0]).len(),
        forall|k: int|
            0 <= k < drained(replies[0]).len() ==> outcome_fits(
                drained(replies[0])[k],
                #[trigger] states.last().0.cycle().outcomes[k],
            ),
        replies.len() <= 6 * drained(replies[0]).len() + 1,
{
    let n = replies.len() as int;
    lemma_cycle_under_way(states, replies, actions, n);
    assert(is_step_of_run(states, replies, actions, n - 1));
    law_step_keeps_the_cycle_in_order(
        states[n - 1].0,
        states[n - 1].1,
        replies[n - 1],
        states[n].0,
        states[n].1,
        actions[n - 1],
    );
    law_every_event_has_its_outcome(states[n].0);
}

} // verus!
