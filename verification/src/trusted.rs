//! The calls this library makes into other crates. Each function here is
//! believed by the verifier on the strength of its contract alone.

use crate::protocol::{outputs_of, AddressNetwork, TxOutput};
use vstd::prelude::*;

verus! {

/// The SHA-256 digest of a byte string, as `bitcoin::hashes::sha256` computes it.
pub uninterp spec fn sha256(data: Seq<u8>) -> Seq<u8>;

/// Calls `bitcoin::hashes::sha256::Hash::hash` on the 32 bytes and returns the
/// digest's inner array. The contract only names the digest.
#[verifier::external_body]
pub(crate) fn sha256_digest(data: &[u8; 32]) -> (digest: [u8; 32])
    ensures
        digest@ == sha256(data@),
{
    bitcoin::hashes::Hash::into_inner(
        <bitcoin::hashes::sha256::Hash as bitcoin::hashes::Hash>::hash(&data[..]),
    )
}

/// The witness version that the first byte of an output script stands for.
pub open spec fn witness_version(first: u8) -> int {
    if first > 0x50 {
        first - 0x50
    } else {
        first as int
    }
}

/// An output script that is a witness program: a version byte, a length byte
/// and a program of that length, with the version and the length in range.
pub open spec fn is_witness_program(script: Seq<u8>) -> bool {
    &&& script.len() >= 4
    &&& script.len() == 2 + script[1]
    &&& witness_version(script[0]) <= 16
    &&& script[1] <= 40
    &&& (witness_version(script[0]) == 0 ==> script[1] == 20 || script[1] == 32)
}

/// The Bech32 address of a witness program on a network, as `bitcoin_bech32` encodes it.
pub uninterp spec fn segwit_address(script: Seq<u8>, network: AddressNetwork) -> Seq<char>;

/// Calls `bitcoin_bech32::WitnessProgram::from_scriptpubkey` and, where that
/// gives a program, `to_address` on it. The outside function fails on a script
/// that is too short or whose length byte is off, and then on a version
/// above 16 or a program length that the version does not allow; on a
/// well-framed script whose version is 32 or more it panics, so callers must
/// rule that out. The contract says that an address comes back exactly for a
/// witness program, and names that address.
#[verifier::external_body]
pub(crate) fn segwit_address_of(script: &Vec<u8>, network: AddressNetwork) -> (address: Option<
    String,
>)
    requires
        script@.len() >= 4 && script@.len() == 2 + script@[1] ==> witness_version(script@[0]) < 32,
    ensures
        address is Some <==> is_witness_program(script@),
        address matches Some(a) ==> a@ == segwit_address(script@, network),
{
    let net = match network {
        AddressNetwork::Bitcoin => bitcoin_bech32::constants::Network::Bitcoin,
        AddressNetwork::Testnet => bitcoin_bech32::constants::Network::Testnet,
        AddressNetwork::Regtest => bitcoin_bech32::constants::Network::Regtest,
    };
    match bitcoin_bech32::WitnessProgram::from_scriptpubkey(&script[..], net) {
        Ok(program) => Some(program.to_address()),
        Err(_) => None,
    }
}

/// The outputs of the transaction that the bytes serialize in Bitcoin's
/// consensus encoding, or `None` where they serialize no transaction.
pub uninterp spec fn decoded_outputs(bytes: Seq<u8>) -> Option<Seq<(u64, Seq<u8>)>>;

/// Calls `bitcoin::consensus::encode::deserialize` for a
/// `bitcoin::Transaction` and copies out each output's value and script bytes.
/// The contract only names the result: the outputs in their order, or nothing
/// where the bytes do not decode.
#[verifier::external_body]
pub(crate) fn decode_outputs(bytes: &Vec<u8>) -> (outputs: Option<Vec<TxOutput>>)
    ensures
        outputs is Some <==> decoded_outputs(bytes@) is Some,
        outputs matches Some(list) ==> outputs_of(list@) == decoded_outputs(bytes@).unwrap(),
{
    match bitcoin::consensus::encode::deserialize::<bitcoin::Transaction>(&bytes[..]) {
        Ok(tx) => Some(
            tx.output.iter().map(
                |o| TxOutput { value: o.value, script_pubkey: o.script_pubkey.to_bytes() },
            ).collect(),
        ),
        Err(_) => None,
    }
}

/// Calls `rand::Rng::gen_range` on the thread's generator, which draws from
/// the half-open range and panics on an empty one. Nothing but the range is
/// known of the number.
#[verifier::external_body]
pub(crate) fn random_between(low: u64, high: u64) -> (value: u64)
    requires
        low < high,
    ensures
        low <= value < high,
{
    rand::Rng::gen_range(&mut rand::thread_rng(), low, high)
}

} // verus!
