use ldk_node_core::chain::{
    apply_notice, apply_notices, backoff_delay, network_matches, same_text, BlockRef, ChainNotice,
    ChainSynchronizer, ChainTip, RetryPolicy, SyncAction, SyncReply, POLL_INTERVAL_MILLIS,
};
use ldk_node_core::protocol::Network;

fn block(n: u8, height: u32) -> BlockRef {
    BlockRef { block_hash: [n; 32], prev_hash: [n - 1; 32], height }
}

fn tip(n: u8, height: u32) -> ChainTip {
    ChainTip { block_hash: [n; 32], height }
}

fn polling_at(start: ChainTip) -> ChainSynchronizer {
    let (mut sync, _) = ChainSynchronizer::start(false, RetryPolicy::Fatal);
    assert_eq!(sync.step(SyncReply::StartingTip { tip: start }), SyncAction::PollBestTip);
    sync
}

#[test]
fn block_connects_on_top_of_the_tip() {
    assert_eq!(apply_notice(tip(5, 100), ChainNotice::Connected(block(6, 101))), Some(tip(6, 101)));
    assert_eq!(apply_notice(tip(5, 100), ChainNotice::Connected(block(6, 102))), None);
    assert_eq!(apply_notice(tip(5, 100), ChainNotice::Connected(block(6, 100))), None);
    assert_eq!(apply_notice(tip(5, 100), ChainNotice::Connected(block(7, 101))), None);
    assert_eq!(apply_notice(tip(5, u32::MAX), ChainNotice::Connected(block(6, 0))), None);
}

#[test]
fn only_the_tip_disconnects() {
    assert_eq!(apply_notice(tip(5, 100), ChainNotice::Disconnected(block(5, 100))), Some(tip(4, 99)));
    assert_eq!(apply_notice(tip(5, 100), ChainNotice::Disconnected(block(4, 99))), None);
    assert_eq!(apply_notice(tip(5, 100), ChainNotice::Disconnected(block(5, 99))), None);
    assert_eq!(apply_notice(tip(5, 0), ChainNotice::Disconnected(block(5, 0))), None);
}

#[test]
fn poll_without_disconnect_raises_the_tip() {
    let notices = vec![
        ChainNotice::Connected(block(6, 101)),
        ChainNotice::Connected(block(7, 102)),
        ChainNotice::Connected(block(8, 103)),
    ];
    assert_eq!(apply_notices(tip(5, 100), &notices), Some(tip(8, 103)));
    assert_eq!(apply_notices(tip(5, 100), &vec![]), Some(tip(5, 100)));
}

#[test]
fn reorg_leaves_one_tip() {
    let replaced = BlockRef { block_hash: [0x55; 32], prev_hash: [4; 32], height: 100 };
    let rival = BlockRef { block_hash: [0x66; 32], prev_hash: [4; 32], height: 100 };
    let child = BlockRef { block_hash: [0x67; 32], prev_hash: [0x66; 32], height: 101 };
    let start = ChainTip { block_hash: [0x55; 32], height: 100 };
    let notices = vec![
        ChainNotice::Disconnected(replaced),
        ChainNotice::Connected(rival),
        ChainNotice::Connected(child),
    ];
    assert_eq!(
        apply_notices(start, &notices),
        Some(ChainTip { block_hash: [0x67; 32], height: 101 })
    );
    let back = vec![ChainNotice::Disconnected(replaced), ChainNotice::Connected(replaced)];
    assert_eq!(apply_notices(start, &back), Some(start));
    let lower = vec![ChainNotice::Disconnected(replaced)];
    assert_eq!(apply_notices(start, &lower), Some(ChainTip { block_hash: [4; 32], height: 99 }));
}

#[test]
fn notices_out_of_order_move_nothing() {
    let notices = vec![
        ChainNotice::Connected(block(6, 101)),
        ChainNotice::Connected(block(8, 103)),
        ChainNotice::Connected(block(9, 104)),
    ];
    assert_eq!(apply_notices(tip(5, 100), &notices), None);
}

#[test]
fn restarted_node_synchronizes_its_listeners() {
    let (sync, action) = ChainSynchronizer::start(true, RetryPolicy::Fatal);
    assert_eq!(action, SyncAction::SynchronizeListeners);
    assert_eq!(sync.current_tip(), None);
    assert!(!sync.is_stopped());
}

#[test]
fn fresh_node_adopts_the_best_header() {
    let (mut sync, action) = ChainSynchronizer::start(false, RetryPolicy::Fatal);
    assert_eq!(action, SyncAction::AdoptBestHeader);
    assert_eq!(sync.step(SyncReply::StartingTip { tip: tip(9, 700_000) }), SyncAction::PollBestTip);
    assert_eq!(sync.current_tip(), Some(tip(9, 700_000)));
}

#[test]
fn unreachable_chain_source_at_startup_is_fatal() {
    let (mut sync, _) = ChainSynchronizer::start(true, RetryPolicy::Fatal);
    assert_eq!(sync.step(SyncReply::Failed), SyncAction::Abort);
    assert!(sync.is_stopped());
    assert_eq!(sync.step(SyncReply::StartingTip { tip: tip(9, 7) }), SyncAction::Abort);
    assert_eq!(sync.current_tip(), None);
}

#[test]
fn successful_poll_replaces_the_tip_and_pauses() {
    let mut sync = polling_at(tip(5, 100));
    let action = sync.step(SyncReply::Polled {
        notices: vec![ChainNotice::Connected(block(6, 101)), ChainNotice::Connected(block(7, 102))],
    });
    assert_eq!(action, SyncAction::Sleep { millis: POLL_INTERVAL_MILLIS });
    assert_eq!(POLL_INTERVAL_MILLIS, 1000);
    assert_eq!(sync.current_tip(), Some(tip(7, 102)));
    assert_eq!(sync.step(SyncReply::Slept), SyncAction::PollBestTip);
    assert_eq!(sync.step(SyncReply::Polled { notices: vec![] }), SyncAction::Sleep { millis: 1000 });
    assert_eq!(sync.current_tip(), Some(tip(7, 102)));
}

#[test]
fn failed_poll_is_fatal_and_keeps_the_tip() {
    let mut sync = polling_at(tip(5, 100));
    assert_eq!(sync.step(SyncReply::Failed), SyncAction::Abort);
    assert!(sync.is_stopped());
    assert_eq!(sync.current_tip(), Some(tip(5, 100)));
    assert_eq!(sync.step(SyncReply::Slept), SyncAction::Abort);
}

#[test]
fn poll_with_misfitting_notices_keeps_the_tip_whole() {
    let mut sync = polling_at(tip(5, 100));
    let action = sync.step(SyncReply::Polled {
        notices: vec![ChainNotice::Connected(block(6, 101)), ChainNotice::Connected(block(9, 102))],
    });
    assert_eq!(action, SyncAction::Abort);
    assert_eq!(sync.current_tip(), Some(tip(5, 100)));
}

#[test]
fn chain_names_match_their_networks() {
    assert!(network_matches(Network::Bitcoin, "main"));
    assert!(network_matches(Network::Testnet, "test"));
    assert!(network_matches(Network::Regtest, "regtest"));
    assert!(network_matches(Network::Signet, "signet"));
    assert!(!network_matches(Network::Bitcoin, "test"));
    assert!(!network_matches(Network::Testnet, "main"));
    assert!(!network_matches(Network::Regtest, "Regtest"));
    assert!(!network_matches(Network::Bitcoin, ""));
    assert!(!network_matches(Network::Bitcoin, "mainnet"));
    assert!(same_text("", ""));
    assert!(!same_text("a", "b"));
}

#[test]
fn backoff_doubles_up_to_its_limit() {
    assert_eq!(backoff_delay(1000, 30_000, 0), 1000);
    assert_eq!(backoff_delay(1000, 30_000, 1), 2000);
    assert_eq!(backoff_delay(1000, 30_000, 2), 4000);
    assert_eq!(backoff_delay(1000, 30_000, 4), 16_000);
    assert_eq!(backoff_delay(1000, 30_000, 5), 30_000);
    assert_eq!(backoff_delay(1000, 30_000, 6), 30_000);
    assert_eq!(backoff_delay(1000, 30_000, u32::MAX), 30_000);
    assert_eq!(backoff_delay(50, 10, 0), 10);
    assert_eq!(backoff_delay(50, 10, 3), 10);
    assert_eq!(backoff_delay(0, 10, 9), 0);
    assert_eq!(backoff_delay(3, u64::MAX, 1), 6);
    assert_eq!(backoff_delay(u64::MAX, u64::MAX, 1), u64::MAX);
}

#[test]
fn failed_poll_is_tried_again_after_a_growing_pause() {
    let policy = RetryPolicy::Backoff { first_millis: 500, max_millis: 1500 };
    let (mut sync, _) = ChainSynchronizer::start(false, policy);
    sync.step(SyncReply::StartingTip { tip: tip(5, 100) });
    assert_eq!(sync.step(SyncReply::Failed), SyncAction::Sleep { millis: 500 });
    assert_eq!(sync.failed_polls(), 1);
    assert!(!sync.is_stopped());
    assert_eq!(sync.current_tip(), Some(tip(5, 100)));
    assert_eq!(sync.step(SyncReply::Slept), SyncAction::PollBestTip);
    assert_eq!(sync.step(SyncReply::Failed), SyncAction::Sleep { millis: 1000 });
    assert_eq!(sync.step(SyncReply::Slept), SyncAction::PollBestTip);
    assert_eq!(sync.step(SyncReply::Failed), SyncAction::Sleep { millis: 1500 });
    assert_eq!(sync.step(SyncReply::Slept), SyncAction::PollBestTip);
    assert_eq!(sync.step(SyncReply::Failed), SyncAction::Sleep { millis: 1500 });
    assert_eq!(sync.failed_polls(), 4);
    assert_eq!(sync.step(SyncReply::Slept), SyncAction::PollBestTip);
    let action = sync.step(SyncReply::Polled { notices: vec![ChainNotice::Connected(block(6, 101))] });
    assert_eq!(action, SyncAction::Sleep { millis: POLL_INTERVAL_MILLIS });
    assert_eq!(sync.failed_polls(), 0);
    assert_eq!(sync.current_tip(), Some(tip(6, 101)));
    assert_eq!(sync.step(SyncReply::Slept), SyncAction::PollBestTip);
    assert_eq!(sync.step(SyncReply::Failed), SyncAction::Sleep { millis: 500 });
}

#[test]
fn misfitting_notices_are_fatal_under_any_policy() {
    let policy = RetryPolicy::Backoff { first_millis: 500, max_millis: 1500 };
    let (mut sync, _) = ChainSynchronizer::start(true, policy);
    assert_eq!(sync.step(SyncReply::StartingTip { tip: tip(5, 100) }), SyncAction::PollBestTip);
    let action = sync.step(SyncReply::Polled { notices: vec![ChainNotice::Connected(block(9, 101))] });
    assert_eq!(action, SyncAction::Abort);
    assert!(sync.is_stopped());
    let (mut sync, _) = ChainSynchronizer::start(true, policy);
    assert_eq!(sync.step(SyncReply::Failed), SyncAction::Abort);
}
