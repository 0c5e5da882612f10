//! The chain synchronizer's bookkeeping: the one authoritative chain tip, how
//! block notifications move it, and what to do after each poll of the chain
//! source.

use crate::bytes::same_bytes;
use crate::protocol::Network;
use vstd::prelude::*;

verus! {

/// The best block that the node has been brought to.
#[derive(Clone, Copy, Debug, PartialEq, Eq)]
pub struct ChainTip {
    pub block_hash: [u8; 32],
    pub height: u32,
}

/// A block as a notification names it: its hash, its parent's hash and its height.
#[derive(Clone, Copy, Debug, PartialEq, Eq)]
pub struct BlockRef {
    pub block_hash: [u8; 32],
    pub prev_hash: [u8; 32],
    pub height: u32,
}

/// A notification to the chain listeners.
#[derive(Clone, Copy, Debug, PartialEq, Eq)]
pub enum ChainNotice {
    /// The block was connected on top of the tip.
    Connected(BlockRef),
    /// The block, which was the tip, was disconnected.
    Disconnected(BlockRef),
}

/// The tip after one notification, or `None` where the notification does not
/// fit the tip: a block connects only on top of the tip, one height up, and
/// only the tip itself disconnects, which leaves its parent as the tip.
pub open spec fn tip_after(tip: ChainTip, notice: ChainNotice) -> Option<ChainTip> {
    match notice {
        ChainNotice::Connected(block) => if block.prev_hash@ == tip.block_hash@ && block.height
            == tip.height + 1 {
            Some(ChainTip { block_hash: block.block_hash, height: block.height })
        } else {
            None
        },
        ChainNotice::Disconnected(block) => if block.block_hash@ == tip.block_hash@ && block.height
            == tip.height && block.height > 0 {
            Some(ChainTip { block_hash: block.prev_hash, height: (block.height - 1) as u32 })
        } else {
            None
        },
    }
}

/// The tip after a run of notifications in their order, or `None` where one
/// of them does not fit.
pub open spec fn tip_after_all(tip: ChainTip, notices: Seq<ChainNotice>) -> Option<ChainTip>
    decreases notices.len(),
{
    if notices.len() == 0 {
        Some(tip)
    } else {
        match tip_after_all(tip, notices.drop_last()) {
            Some(before) => tip_after(before, notices.last()),
            None => None,
        }
    }
}

/// How many of the notifications connect a block.
pub open spec fn connected_count(notices: Seq<ChainNotice>) -> nat
    decreases notices.len(),
{
    if notices.len() == 0 {
        0
    } else {
        connected_count(notices.drop_last()) + if notices.last() is Connected {
            1nat
        } else {
            0nat
        }
    }
}

/// Moves a tip by one notification.
pub fn apply_notice(tip: ChainTip, notice: ChainNotice) -> (moved: Option<ChainTip>)
    ensures
        moved == tip_after(tip, notice),
{
    match notice {
        ChainNotice::Connected(block) => {
            if same_bytes(&block.prev_hash, &tip.block_hash) && tip.height < u32::MAX
                && block.height == tip.height + 1 {
                Some(ChainTip { block_hash: block.block_hash, height: block.height })
            } else {
                None
            }
        },
        ChainNotice::Disconnected(block) => {
            if same_bytes(&block.block_hash, &tip.block_hash) && block.height == tip.height
                && block.height > 0 {
                Some(ChainTip { block_hash: block.prev_hash, height: block.height - 1 })
            } else {
                None
            }
        },
    }
}

/// Moves a tip by the notifications of one poll, in their order.
pub fn apply_notices(tip: ChainTip, notices: &Vec<ChainNotice>) -> (moved: Option<ChainTip>)
    ensures
        moved == tip_after_all(tip, notices@),
{
    let mut current = tip;
    let mut i: usize = 0;
    while i < notices.len()
        invariant
            i <= notices@.len(),
            tip_after_all(tip, notices@.subrange(0, i as int)) == Some(current),
        decreases notices@.len() - i,
    {
        proof {
            assert(notices@.subrange(0, i as int + 1).drop_last() =~= notices@.subrange(
                0,
                i as int,
            ));
        }
        match apply_notice(current, notices[i]) {
            Some(next) => {
                current = next;
            },
            None => {
                proof {
                    lemma_misfit_is_final(tip, notices@, i as int + 1);
                }
                return None;
            },
        }
        i += 1;
    }
    assert(notices@.subrange(0, i as int) =~= notices@);
    Some(current)
}

proof fn lemma_misfit_is_final(tip: ChainTip, notices: Seq<ChainNotice>, end: int)
    requires
        0 <= end <= notices.len(),
        tip_after_all(tip, notices.subrange(0, end)) is None,
    ensures
        tip_after_all(tip, notices) is None,
    decreases notices.len() - end,
{
    if end < notices.len() {
        assert(notices.subrange(0, end + 1).drop_last() =~= notices.subrange(0, end));
        lemma_misfit_is_final(tip, notices, end + 1);
    } else {
        assert(notices.subrange(0, end) =~= notices);
    }
}

/// The tip moves by what was connected and disconnected: after a run of
/// notifications that fit, its height is the height before, plus the blocks
/// connected, minus the blocks disconnected.
pub proof fn law_height_follows_notices(tip: ChainTip, notices: Seq<ChainNotice>)
    requires
        tip_after_all(tip, notices) is Some,
    ensures
        tip_after_all(tip, notices).unwrap().height == tip.height + 2 * connected_count(notices)
            - notices.len(),
        connected_count(notices) <= notices.len(),
    decreases notices.len(),
{
    if notices.len() > 0 {
        law_height_follows_notices(tip, notices.drop_last());
    }
}

/// A poll that disconnects nothing never lowers the tip: the height rises by
/// the number of blocks connected.
pub proof fn law_tip_never_falls_without_disconnect(tip: ChainTip, notices: Seq<ChainNotice>)
    requires
        tip_after_all(tip, notices) is Some,
        forall|i: int| 0 <= i < notices.len() ==> (#[trigger] notices[i]) is Connected,
    ensures
        tip_after_all(tip, notices).unwrap().height == tip.height + notices.len(),
        tip_after_all(tip, notices).unwrap().height >= tip.height,
    decreases notices.len(),
{
    if notices.len() > 0 {
        let front = notices.drop_last();
        law_tip_never_falls_without_disconnect(tip, front);
    }
}

/// After a run of notifications that fit there is one tip, and it is the
/// block that the last notification left on top: the block connected last, or
/// the parent of the block disconnected last.
pub proof fn law_last_notice_names_the_tip(tip: ChainTip, notices: Seq<ChainNotice>)
    requires
        notices.len() > 0,
        tip_after_all(tip, notices) is Some,
    ensures
        match notices.last() {
            ChainNotice::Connected(block) => tip_after_all(tip, notices) == Some(
                ChainTip { block_hash: block.block_hash, height: block.height },
            ),
            ChainNotice::Disconnected(block) => block.height > 0 && tip_after_all(tip, notices)
                == Some(
                ChainTip { block_hash: block.prev_hash, height: (block.height - 1) as u32 },
            ),
        },
{
}

/// Disconnecting the tip and connecting the same block again leaves the tip
/// where it was.
pub proof fn law_reconnect_restores_tip(tip: ChainTip, block: BlockRef)
    requires
        block.block_hash == tip.block_hash,
        block.height == tip.height,
        block.height > 0,
    ensures
        tip_after_all(tip, seq![ChainNotice::Disconnected(block), ChainNotice::Connected(block)])
            == Some(tip),
{
    let notices = seq![ChainNotice::Disconnected(block), ChainNotice::Connected(block)];
    let first = notices.drop_last();
    assert(tip_after_all(tip, first.drop_last()) == Some(tip));
    assert(tip_after_all(tip, first) == tip_after(tip, ChainNotice::Disconnected(block)));
}

/// The name by which the chain source calls a network.
pub open spec fn chain_name(network: Network) -> Seq<char> {
    match network {
        Network::Bitcoin => "main"@,
        Network::Testnet => "test"@,
        Network::Regtest => "regtest"@,
        Network::Signet => "signet"@,
    }
}

/// Whether the chain that the chain source reports is the configured network.
/// The node must not start where it is not.
pub fn network_matches(network: Network, reported_chain: &str) -> (matches: bool)
    ensures
        matches == (reported_chain@ == chain_name(network)),
{
    let expected = match network {
        Network::Bitcoin => "main",
        Network::Testnet => "test",
        Network::Regtest => "regtest",
        Network::Signet => "signet",
    };
    same_text(expected, reported_chain)
}

/// Whether two strings hold the same text.
pub fn same_text(a: &str, b: &str) -> (same: bool)
    ensures
        same == (a@ == b@),
{
    let left = a.to_owned();
    let right = b.to_owned();
    left == right
}

/// The pause between two polls of the chain source, in milliseconds.
pub const POLL_INTERVAL_MILLIS: u64 = 1000;

/// What to do when the chain source cannot be reached at a poll.
#[derive(Clone, Copy, Debug, PartialEq, Eq, Structural)]
pub enum RetryPolicy {
    /// Give up at once.
    Fatal,
    /// Poll again after a pause that doubles with each failure in a row, from
    /// `first_millis` up to `max_millis`.
    Backoff { first_millis: u64, max_millis: u64 },
}

/// The pause before the poll that follows a number of failed polls in a row.
pub open spec fn backoff_millis(first_millis: u64, max_millis: u64, failures: nat) -> int
    decreases failures,
{
    if failures == 0 {
        if first_millis <= max_millis {
            first_millis as int
        } else {
            max_millis as int
        }
    } else {
        let doubled = 2 * backoff_millis(first_millis, max_millis, (failures - 1) as nat);
        if doubled <= max_millis {
            doubled
        } else {
            max_millis as int
        }
    }
}

/// The pause never exceeds the longest pause, and it never shrinks as the
/// failures go on.
pub proof fn law_backoff_grows_to_its_limit(first_millis: u64, max_millis: u64, failures: nat)
    ensures
        0 <= backoff_millis(first_millis, max_millis, failures) <= max_millis,
        backoff_millis(first_millis, max_millis, failures) <= backoff_millis(
            first_millis,
            max_millis,
            failures + 1,
        ),
    decreases failures,
{
    if failures > 0 {
        law_backoff_grows_to_its_limit(first_millis, max_millis, (failures - 1) as nat);
    }
}

/// Computes the pause before the poll that follows `failures` failed polls in a row.
pub fn backoff_delay(first_millis: u64, max_millis: u64, failures: u32) -> (millis: u64)
    ensures
        millis == backoff_millis(first_millis, max_millis, failures as nat),
{
    let mut millis = if first_millis <= max_millis {
        first_millis
    } else {
        max_millis
    };
    let mut done: u32 = 0;
    while done < failures
        invariant
            done <= failures,
            millis == backoff_millis(first_millis, max_millis, done as nat),
            millis <= max_millis,
        decreases failures - done,
    {
        millis = if millis <= max_millis / 2 {
            millis * 2
        } else {
            max_millis
        };
        done += 1;
    }
    millis
}

/// What the chain synchronizer is waiting for.
#[derive(Clone, Copy, Debug, PartialEq, Eq, Structural)]
pub enum SyncPhase {
    /// The tip to start from.
    Starting,
    /// The notifications of a poll.
    Polling,
    /// The end of the pause between polls.
    Pausing,
    /// Nothing: the synchronizer has given up.
    Stopped,
}

/// Work that the chain synchronizer asks for.
#[derive(Clone, Copy, Debug, PartialEq, Eq, Structural)]
pub enum SyncAction {
    /// Replay blocks until every persisted listener stands at the chain
    /// source's tip, and say which tip that is.
    SynchronizeListeners,
    /// Say which block the chain source holds best; nothing needs replaying.
    AdoptBestHeader,
    /// Ask the chain source for its best header and notify the listeners of
    /// every block between the tip and it.
    PollBestTip,
    /// Pause.
    Sleep { millis: u64 },
    /// Give up: the chain source cannot be followed.
    Abort,
}

/// The answer to a [`SyncAction`].
#[derive(Clone, Debug, PartialEq, Eq)]
pub enum SyncReply {
    /// The tip that the listeners stand at.
    StartingTip { tip: ChainTip },
    /// The notifications that a poll gave to the listeners, in their order.
    Polled { notices: Vec<ChainNotice> },
    /// The pause is over.
    Slept,
    /// The chain source could not be reached.
    Failed,
}

/// The chain synchronizer's state machine. It owns the tip, which changes
/// only as a whole and only after a poll whose notifications all fit.
pub struct ChainSynchronizer {
    phase: SyncPhase,
    tip: Option<ChainTip>,
    policy: RetryPolicy,
    failures: u32,
}

impl ChainSynchronizer {
    /// What the synchronizer is waiting for.
    pub closed spec fn phase(self) -> SyncPhase {
        self.phase
    }

    /// The tip, once there is one.
    pub closed spec fn tip(self) -> Option<ChainTip> {
        self.tip
    }

    /// What the synchronizer does about a poll that fails.
    pub closed spec fn policy(self) -> RetryPolicy {
        self.policy
    }

    /// How many polls have failed in a row. The count stops at the largest
    /// number it can hold.
    pub closed spec fn failures(self) -> nat {
        self.failures as nat
    }

    /// There is a tip from the first poll on.
    pub closed spec fn wf(self) -> bool {
        (self.phase == SyncPhase::Polling || self.phase == SyncPhase::Pausing) ==> self.tip is Some
    }

    /// The synchronizer has given up and keeps its tip.
    pub open spec fn gives_up(self, after: ChainSynchronizer, action: SyncAction) -> bool {
        &&& after.phase() == SyncPhase::Stopped
        &&& after.tip() == self.tip()
        &&& after.policy() == self.policy()
        &&& after.failures() == self.failures()
        &&& action == SyncAction::Abort
    }

    /// What one step of the synchronizer does.
    ///
    /// A failure to reach the chain source at the start ends it, and so does
    /// a poll whose notifications do not fit the tip. A poll that fails ends
    /// it too, unless the policy is to poll again: then the tip stays as it
    /// was and the next poll waits for the pause that the failures in a row
    /// call for. A poll that succeeds replaces the tip and clears the count of
    /// failures.
    pub open spec fn step_spec(self, reply: SyncReply, after: ChainSynchronizer, action: SyncAction) -> bool {
        match (self.phase(), reply) {
            (SyncPhase::Starting, SyncReply::StartingTip { tip }) => {
                &&& after.phase() == SyncPhase::Polling
                &&& after.tip() == Some(tip)
                &&& after.policy() == self.policy()
                &&& after.failures() == self.failures()
                &&& action == SyncAction::PollBestTip
            },
            (SyncPhase::Polling, SyncReply::Polled { notices }) => {
                match tip_after_all(self.tip().unwrap(), notices@) {
                    Some(moved) => {
                        &&& after.phase() == SyncPhase::Pausing
                        &&& after.tip() == Some(moved)
                        &&& after.policy() == self.policy()
                        &&& after.failures() == 0
                        &&& action == (SyncAction::Sleep { millis: POLL_INTERVAL_MILLIS })
                    },
                    None => self.gives_up(after, action),
                }
            },
            (SyncPhase::Polling, _) => {
                match self.policy() {
                    RetryPolicy::Fatal => self.gives_up(after, action),
                    RetryPolicy::Backoff { first_millis, max_millis } => {
                        &&& after.phase() == SyncPhase::Pausing
                        &&& after.tip() == self.tip()
                        &&& after.policy() == self.policy()
                        &&& after.failures() == if self.failures() < u32::MAX {
                            self.failures() + 1
                        } else {
                            self.failures()
                        }
                        &&& action matches SyncAction::Sleep { millis }
                        &&& millis == backoff_millis(first_millis, max_millis, self.failures())
                    },
                }
            },
            (SyncPhase::Pausing, _) => {
                &&& after.phase() == SyncPhase::Polling
                &&& after.tip() == self.tip()
                &&& after.policy() == self.policy()
                &&& after.failures() == self.failures()
                &&& action == SyncAction::PollBestTip
            },
            _ => self.gives_up(after, action),
        }
    }

    /// A synchronizer with its first action. A node that starts with state
    /// from an earlier run has its listeners brought to the chain source's
    /// tip; a fresh node takes that tip as it is.
    pub fn start(has_prior_state: bool, policy: RetryPolicy) -> (start: (
        ChainSynchronizer,
        SyncAction,
    ))
        ensures
            start.0.wf(),
            start.0.phase() == SyncPhase::Starting,
            start.0.tip() is None,
            start.0.policy() == policy,
            start.0.failures() == 0,
            start.1 == if has_prior_state {
                SyncAction::SynchronizeListeners
            } else {
                SyncAction::AdoptBestHeader
            },
    {
        let synchronizer = ChainSynchronizer {
            phase: SyncPhase::Starting,
            tip: None,
            policy,
            failures: 0,
        };
        let action = if has_prior_state {
            SyncAction::SynchronizeListeners
        } else {
            SyncAction::AdoptBestHeader
        };
        (synchronizer, action)
    }

    /// The tip, once there is one.
    pub fn current_tip(&self) -> (tip: Option<ChainTip>)
        ensures
            tip == self.tip(),
    {
        self.tip
    }

    /// Whether the synchronizer has given up.
    pub fn is_stopped(&self) -> (stopped: bool)
        ensures
            stopped == (self.phase() == SyncPhase::Stopped),
    {
        self.phase == SyncPhase::Stopped
    }

    /// How many polls have failed in a row.
    pub fn failed_polls(&self) -> (count: u32)
        ensures
            count == self.failures(),
    {
        self.failures
    }

    /// Takes the reply to the last action and gives the next action.
    pub fn step(&mut self, reply: SyncReply) -> (action: SyncAction)
        requires
            old(self).wf(),
        ensures
            final(self).wf(),
            old(self).step_spec(reply, *final(self), action),
    {
        match self.phase {
            SyncPhase::Starting => match reply {
                SyncReply::StartingTip { tip } => {
                    self.tip = Some(tip);
                    self.phase = SyncPhase::Polling;
                    SyncAction::PollBestTip
                },
                _ => {
                    self.phase = SyncPhase::Stopped;
                    SyncAction::Abort
                },
            },
            SyncPhase::Polling => match reply {
                SyncReply::Polled { notices } => {
                    let tip = match self.tip {
                        Some(tip) => tip,
                        None => {
                            self.phase = SyncPhase::Stopped;
                            return SyncAction::Abort;
                        },
                    };
                    match apply_notices(tip, &notices) {
                        Some(moved) => {
                            self.tip = Some(moved);
                            self.failures = 0;
                            self.phase = SyncPhase::Pausing;
                            SyncAction::Sleep { millis: POLL_INTERVAL_MILLIS }
                        },
                        None => {
                            self.phase = SyncPhase::Stopped;
                            SyncAction::Abort
                        },
                    }
                },
                _ => match self.policy {
                    RetryPolicy::Fatal => {
                        self.phase = SyncPhase::Stopped;
                        SyncAction::Abort
                    },
                    RetryPolicy::Backoff { first_millis, max_millis } => {
                        let millis = backoff_delay(first_millis, max_millis, self.failures);
                        if self.failures < u32::MAX {
                            self.failures = self.failures + 1;
                        }
                        self.phase = SyncPhase::Pausing;
                        SyncAction::Sleep { millis }
                    },
                },
            },
            SyncPhase::Pausing => {
                self.phase = SyncPhase::Polling;
                SyncAction::PollBestTip
            },
            SyncPhase::Stopped => SyncAction::Abort,
        }
    }
}

/// After a successful poll the tip is never lower than before, unless the
/// poll disconnected a block.
pub proof fn law_successful_poll_keeps_height(
    before: ChainSynchronizer,
    notices: Vec<ChainNotice>,
    after: ChainSynchronizer,
    action: SyncAction,
)
    requires
        before.wf(),
        before.phase() == SyncPhase::Polling,
        before.step_spec(SyncReply::Polled { notices }, after, action),
        action != SyncAction::Abort,
        forall|i: int| 0 <= i < notices@.len() ==> (#[trigger] notices@[i]) is Connected,
    ensures
        after.tip() is Some,
        after.tip().unwrap().height == before.tip().unwrap().height + notices@.len(),
        after.tip().unwrap().height >= before.tip().unwrap().height,
{
    law_tip_never_falls_without_disconnect(before.tip().unwrap(), notices@);
}

/// Nothing but a poll whose notifications fit moves the tip: after any other
/// step the tip is the one from before.
pub proof fn law_only_a_poll_moves_the_tip(
    before: ChainSynchronizer,
    reply: SyncReply,
    after: ChainSynchronizer,
    action: SyncAction,
)
    requires
        before.wf(),
        before.step_spec(reply, after, action),
        before.phase() != SyncPhase::Starting,
        !(before.phase() == SyncPhase::Polling && reply is Polled),
    ensures
        after.tip() == before.tip(),
{
}

} // verus!
