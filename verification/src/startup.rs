//! Decisions taken once, when the node starts: which key seed to use and
//! which peers to call again.

use crate::bytes::same_bytes;
use vstd::prelude::*;

verus! {

/// The key seed that a seed file holds: its 32 bytes. A file of any other
/// length holds no seed.
pub fn seed_from_bytes(contents: &Vec<u8>) -> (seed: Option<[u8; 32]>)
    ensures
        seed is Some <==> contents@.len() == 32,
        seed matches Some(key) ==> key@ == contents@,
{
    if contents.len() != 32 {
        return None;
    }
    let mut key = [0u8; 32];
    let mut i: usize = 0;
    while i < 32
        invariant
            i <= 32,
            contents@.len() == 32,
            forall|j: int| 0 <= j < i ==> key@[j] == contents@[j],
        decreases 32 - i,
    {
        key[i] = contents[i];
        i += 1;
    }
    Some(key)
}

/// How many of the channels are with this peer.
pub open spec fn channels_with(channels: Seq<[u8; 33]>, peer: [u8; 33]) -> nat
    decreases channels.len(),
{
    if channels.len() == 0 {
        0
    } else {
        channels_with(channels.drop_last(), peer) + if channels.last()@ == peer@ {
            1nat
        } else {
            0nat
        }
    }
}

/// The peers to call again, by their place among the stored peers: each
/// stored peer in turn, once for every channel that is open with it.
pub open spec fn reconnect_attempts(peers: Seq<[u8; 33]>, channels: Seq<[u8; 33]>) -> Seq<usize>
    decreases peers.len(),
{
    if peers.len() == 0 {
        Seq::empty()
    } else {
        reconnect_attempts(peers.drop_last(), channels) + Seq::new(
            channels_with(channels, peers.last()),
            |k: int| (peers.len() - 1) as usize,
        )
    }
}

/// Picks the stored peers to call again: those with which a channel is open.
/// `peers` holds the node ids of the stored peers and `channels` the
/// counterparty of each open channel.
pub fn peers_to_reconnect(peers: &Vec<[u8; 33]>, channels: &Vec<[u8; 33]>) -> (attempts: Vec<usize>)
    ensures
        attempts@ == reconnect_attempts(peers@, channels@),
{
    let mut attempts: Vec<usize> = Vec::new();
    let mut i: usize = 0;
    while i < peers.len()
        invariant
            i <= peers@.len(),
            attempts@ == reconnect_attempts(peers@.subrange(0, i as int), channels@),
        decreases peers@.len() - i,
    {
        let ghost done = attempts@;
        let mut j: usize = 0;
        while j < channels.len()
            invariant
                i < peers@.len(),
                j <= channels@.len(),
                attempts@ == done + Seq::new(
                    channels_with(channels@.subrange(0, j as int), peers@[i as int]),
                    |k: int| i,
                ),
            decreases channels@.len() - j,
        {
            proof {
                assert(channels@.subrange(0, j as int + 1).drop_last() =~= channels@.subrange(
                    0,
                    j as int,
                ));
            }
            if same_bytes(&channels[j], &peers[i]) {
                attempts.push(i);
                assert(attempts@ =~= done + Seq::new(
                    channels_with(channels@.subrange(0, j as int + 1), peers@[i as int]),
                    |k: int| i,
                ));
            }
            j += 1;
        }
        proof {
            assert(channels@.subrange(0, j as int) =~= channels@);
            assert(peers@.subrange(0, i as int + 1).drop_last() =~= peers@.subrange(0, i as int));
        }
        i += 1;
    }
    assert(peers@.subrange(0, i as int) =~= peers@);
    attempts
}

} // verus!
