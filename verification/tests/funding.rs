use ldk_node_core::bytes::hex_str;
use ldk_node_core::funding::{
    check_signed, count_paying, funding_address, FundingBuilder, FundingRequest, FundingStage,
    FundingStep,
};
use ldk_node_core::protocol::{
    Action, AddressNetwork, FundingError, Network, Outcome, Reply, TxOutput,
};

const CHANNEL: [u8; 32] = [0xc4; 32];

fn p2wpkh_script() -> Vec<u8> {
    let mut script = vec![0x00, 0x14];
    script.extend_from_slice(&[
        0x75, 0x1e, 0x76, 0xe8, 0x19, 0x91, 0x96, 0xd4, 0x54, 0x94, 0x1c, 0x45, 0xd1, 0xb3, 0xa3,
        0x23, 0xf1, 0x43, 0x3b, 0xd6,
    ]);
    script
}

fn p2wsh_script() -> Vec<u8> {
    let mut script = vec![0x00, 0x20];
    script.extend_from_slice(&[
        0x00, 0x00, 0x00, 0xc4, 0xa5, 0xca, 0xd4, 0x62, 0x21, 0xb2, 0xa1, 0x87, 0x90, 0x5e, 0x52,
        0x66, 0x36, 0x2b, 0x99, 0xd5, 0xe9, 0x1c, 0x6c, 0xe2, 0x4d, 0x16, 0x5d, 0xab, 0x93, 0xe8,
        0x64, 0x33,
    ]);
    script
}

fn serialized_transaction(outputs: &[(u64, Vec<u8>)]) -> Vec<u8> {
    let mut tx = Vec::new();
    tx.extend_from_slice(&2u32.to_le_bytes());
    tx.extend_from_slice(&[0x00, 0x01]);
    tx.push(1);
    tx.extend_from_slice(&[0xaa; 32]);
    tx.extend_from_slice(&0u32.to_le_bytes());
    tx.push(0);
    tx.extend_from_slice(&0xffff_ffffu32.to_le_bytes());
    tx.push(outputs.len() as u8);
    for (value, script) in outputs {
        tx.extend_from_slice(&value.to_le_bytes());
        tx.push(script.len() as u8);
        tx.extend_from_slice(script);
    }
    tx.extend_from_slice(&[1, 1, 0x01]);
    tx.extend_from_slice(&0u32.to_le_bytes());
    tx
}

fn request(value: u64, script: Vec<u8>) -> FundingRequest {
    FundingRequest {
        temporary_channel_id: CHANNEL,
        channel_value_satoshis: value,
        output_script: script,
    }
}

fn aborted(reason: FundingError) -> FundingStep {
    FundingStep::Done(Outcome::FundingAborted { temporary_channel_id: CHANNEL, reason })
}

fn builder_at_signing(value: u64, script: Vec<u8>) -> FundingBuilder {
    let builder = match FundingBuilder::start(request(value, script), Network::Regtest) {
        FundingStep::Ask(builder, _) => builder,
        other => panic!("no attempt: {:?}", other),
    };
    let builder = match builder.step(Reply::RawTransaction { hex: "0200".to_string() }) {
        FundingStep::Ask(builder, _) => builder,
        other => panic!("no attempt: {:?}", other),
    };
    match builder.step(Reply::Funded { hex: "0201".to_string(), changepos: 1 }) {
        FundingStep::Ask(builder, _) => builder,
        other => panic!("no attempt: {:?}", other),
    }
}

#[test]
fn address_of_a_witness_program_on_each_network() {
    assert_eq!(
        funding_address(&p2wpkh_script(), Network::Bitcoin),
        Ok("bc1qw508d6qejxtdg4y5r3zarvary0c5xw7kv8f3t4".to_string())
    );
    assert_eq!(
        funding_address(&p2wpkh_script(), Network::Testnet),
        Ok("tb1qw508d6qejxtdg4y5r3zarvary0c5xw7kxpjzsx".to_string())
    );
    assert_eq!(
        funding_address(&p2wpkh_script(), Network::Regtest),
        Ok("bcrt1qw508d6qejxtdg4y5r3zarvary0c5xw7kygt080".to_string())
    );
    assert_eq!(
        funding_address(&p2wsh_script(), Network::Testnet),
        Ok("tb1qqqqqp399et2xygdj5xreqhjjvcmzhxw4aywxecjdzew6hylgvsesrxh6hy".to_string())
    );
}

#[test]
fn address_of_a_later_witness_version() {
    let mut script = vec![0x51, 0x20];
    script.extend((0u8..32).collect::<Vec<u8>>());
    assert_eq!(
        funding_address(&script, Network::Bitcoin),
        Ok("bc1pqqqsyqcyq5rqwzqfpg9scrgwpugpzysnzs23v9ccrydpk8qarc0sagmhkq".to_string())
    );
}

#[test]
fn no_address_on_signet() {
    assert_eq!(
        funding_address(&p2wpkh_script(), Network::Signet),
        Err(FundingError::UnsupportedNetwork)
    );
    assert_eq!(funding_address(&vec![], Network::Signet), Err(FundingError::UnsupportedNetwork));
}

#[test]
fn no_address_for_a_script_that_is_no_witness_program() {
    let not_segwit = Err(FundingError::NotSegwit);
    assert_eq!(funding_address(&vec![], Network::Bitcoin), not_segwit);
    assert_eq!(funding_address(&vec![0x00, 0x14, 0x01], Network::Bitcoin), not_segwit);
    // the length byte is off
    let mut script = p2wpkh_script();
    script.push(0);
    assert_eq!(funding_address(&script, Network::Bitcoin), not_segwit);
    // version 0 takes 20 or 32 bytes only
    let mut script = vec![0x00, 0x15];
    script.extend_from_slice(&[7; 21]);
    assert_eq!(funding_address(&script, Network::Bitcoin), not_segwit);
    // a pay-to-public-key-hash script
    let mut script = vec![0x76, 0xa9, 0x14];
    script.extend_from_slice(&[7; 20]);
    script.extend_from_slice(&[0x88, 0xac]);
    assert_eq!(funding_address(&script, Network::Bitcoin), not_segwit);
    // version bytes that stand for no witness version
    for first in [0x11u8, 0x20, 0x4f, 0x50, 0x61, 0x70, 0xa9, 0xff] {
        let mut script = vec![first, 0x14];
        script.extend_from_slice(&[7; 20]);
        assert_eq!(funding_address(&script, Network::Testnet), not_segwit);
    }
    // a program longer than 40 bytes
    let mut script = vec![0x51, 41];
    script.extend_from_slice(&[7; 41]);
    assert_eq!(funding_address(&script, Network::Testnet), not_segwit);
}

#[test]
fn attempt_begins_with_one_output_of_the_channel_value() {
    let next = FundingBuilder::start(request(100_000, p2wpkh_script()), Network::Bitcoin);
    match next {
        FundingStep::Ask(builder, action) => {
            assert_eq!(
                action,
                Action::CreateRawTransaction {
                    address: "bc1qw508d6qejxtdg4y5r3zarvary0c5xw7kv8f3t4".to_string(),
                    amount_sat: 100_000,
                }
            );
            assert_eq!(builder.awaits(), FundingStage::Drafting);
            assert_eq!(builder.request(), &request(100_000, p2wpkh_script()));
        }
        other => panic!("no attempt: {:?}", other),
    }
}

#[test]
fn attempt_does_not_begin_without_an_address() {
    assert_eq!(
        FundingBuilder::start(request(1, p2wpkh_script()), Network::Signet),
        aborted(FundingError::UnsupportedNetwork)
    );
    assert_eq!(
        FundingBuilder::start(request(1, vec![0x6a]), Network::Bitcoin),
        aborted(FundingError::NotSegwit)
    );
}

#[test]
fn funded_transaction_is_signed_and_handed_over() {
    let script = p2wsh_script();
    let builder = match FundingBuilder::start(request(250_000, script.clone()), Network::Testnet)
    {
        FundingStep::Ask(builder, _) => builder,
        other => panic!("no attempt: {:?}", other),
    };
    let builder = match builder.step(Reply::RawTransaction { hex: "02000000".to_string() }) {
        FundingStep::Ask(builder, action) => {
            assert_eq!(action, Action::FundRawTransaction { raw_tx: "02000000".to_string() });
            assert_eq!(builder.awaits(), FundingStage::Funding);
            builder
        }
        other => panic!("no attempt: {:?}", other),
    };
    let builder = match builder.step(Reply::Funded { hex: "0200aa".to_string(), changepos: 0 }) {
        FundingStep::Ask(builder, action) => {
            assert_eq!(action, Action::SignRawTransaction { funded_tx: "0200aa".to_string() });
            assert_eq!(builder.awaits(), FundingStage::Signing);
            builder
        }
        other => panic!("no attempt: {:?}", other),
    };
    let change = p2wpkh_script();
    let tx = serialized_transaction(&[(7_000, change), (250_000, script)]);
    let builder = match builder.step(Reply::Signed { hex: hex_str(&tx), complete: true }) {
        FundingStep::Ask(builder, action) => {
            assert_eq!(
                action,
                Action::FundingGenerated { temporary_channel_id: CHANNEL, transaction: tx }
            );
            assert_eq!(builder.awaits(), FundingStage::HandingOver);
            builder
        }
        other => panic!("no attempt: {:?}", other),
    };
    assert_eq!(
        builder.step(Reply::FundingTaken { accepted: true }),
        FundingStep::Done(Outcome::FundingHandedOver { temporary_channel_id: CHANNEL })
    );
}

#[test]
fn wallet_failure_ends_the_attempt() {
    let builder = match FundingBuilder::start(request(1, p2wpkh_script()), Network::Regtest) {
        FundingStep::Ask(builder, _) => builder,
        other => panic!("no attempt: {:?}", other),
    };
    assert_eq!(builder.step(Reply::Failed), aborted(FundingError::WalletFailed));
    let builder = match FundingBuilder::start(request(1, p2wpkh_script()), Network::Regtest) {
        FundingStep::Ask(builder, _) => builder,
        other => panic!("no attempt: {:?}", other),
    };
    let builder = match builder.step(Reply::RawTransaction { hex: "00".to_string() }) {
        FundingStep::Ask(builder, _) => builder,
        other => panic!("no attempt: {:?}", other),
    };
    assert_eq!(
        builder.step(Reply::RawTransaction { hex: "00".to_string() }),
        aborted(FundingError::WalletFailed)
    );
    assert_eq!(
        builder_at_signing(1, p2wpkh_script()).step(Reply::Done),
        aborted(FundingError::WalletFailed)
    );
}

#[test]
fn change_position_must_be_first_or_second() {
    for changepos in [-1i64, 2, 3, i64::MAX, i64::MIN] {
        let builder = match FundingBuilder::start(request(1, p2wpkh_script()), Network::Regtest) {
            FundingStep::Ask(builder, _) => builder,
            other => panic!("no attempt: {:?}", other),
        };
        let builder = match builder.step(Reply::RawTransaction { hex: "00".to_string() }) {
            FundingStep::Ask(builder, _) => builder,
            other => panic!("no attempt: {:?}", other),
        };
        assert_eq!(
            builder.step(Reply::Funded { hex: "00".to_string(), changepos }),
            aborted(FundingError::InvalidChangePosition)
        );
    }
}

#[test]
fn incomplete_signature_ends_the_attempt() {
    let script = p2wpkh_script();
    let tx = serialized_transaction(&[(50_000, script.clone())]);
    assert_eq!(
        builder_at_signing(50_000, script).step(Reply::Signed { hex: hex_str(&tx), complete: false }),
        aborted(FundingError::IncompleteSignature)
    );
}

#[test]
fn signed_transaction_must_decode() {
    let script = p2wpkh_script();
    assert_eq!(
        builder_at_signing(50_000, script.clone())
            .step(Reply::Signed { hex: "not hex".to_string(), complete: true }),
        aborted(FundingError::MalformedTransaction)
    );
    assert_eq!(
        builder_at_signing(50_000, script.clone())
            .step(Reply::Signed { hex: "0200000".to_string(), complete: true }),
        aborted(FundingError::MalformedTransaction)
    );
    assert_eq!(
        builder_at_signing(50_000, script.clone())
            .step(Reply::Signed { hex: "02000000".to_string(), complete: true }),
        aborted(FundingError::MalformedTransaction)
    );
    let mut tx = serialized_transaction(&[(50_000, script.clone())]);
    tx.push(0);
    assert_eq!(
        builder_at_signing(50_000, script).step(Reply::Signed { hex: hex_str(&tx), complete: true }),
        aborted(FundingError::MalformedTransaction)
    );
}

#[test]
fn signed_transaction_must_pay_the_request_exactly_once() {
    let script = p2wpkh_script();
    let other = p2wsh_script();
    let wrong_value = serialized_transaction(&[(49_999, script.clone())]);
    let wrong_script = serialized_transaction(&[(50_000, other.clone())]);
    let twice = serialized_transaction(&[(50_000, script.clone()), (50_000, script.clone())]);
    let none = serialized_transaction(&[]);
    for tx in [wrong_value, wrong_script, twice, none] {
        assert_eq!(
            builder_at_signing(50_000, script.clone())
                .step(Reply::Signed { hex: hex_str(&tx), complete: true }),
            aborted(FundingError::OutputMismatch)
        );
    }
}

#[test]
fn refusal_by_the_engine_ends_the_attempt() {
    let script = p2wpkh_script();
    let tx = serialized_transaction(&[(50_000, script.clone())]);
    for reply in [Reply::FundingTaken { accepted: false }, Reply::Failed, Reply::Done] {
        let builder = match builder_at_signing(50_000, script.clone())
            .step(Reply::Signed { hex: hex_str(&tx), complete: true })
        {
            FundingStep::Ask(builder, _) => builder,
            other => panic!("no attempt: {:?}", other),
        };
        assert_eq!(builder.step(reply), aborted(FundingError::Rejected));
    }
}

#[test]
fn check_of_a_signed_transaction() {
    let script = p2wpkh_script();
    let tx = serialized_transaction(&[(1, p2wsh_script()), (50_000, script.clone())]);
    let upper = hex_str(&tx).to_uppercase();
    assert_eq!(check_signed(&hex_str(&tx), true, 50_000, &script), Ok(tx.clone()));
    assert_eq!(check_signed(&upper, true, 50_000, &script), Ok(tx.clone()));
    assert_eq!(
        check_signed(&hex_str(&tx), false, 50_000, &script),
        Err(FundingError::IncompleteSignature)
    );
    assert_eq!(
        check_signed("zz", false, 50_000, &script),
        Err(FundingError::IncompleteSignature)
    );
    assert_eq!(check_signed("zz", true, 50_000, &script), Err(FundingError::MalformedTransaction));
    assert_eq!(
        check_signed(&hex_str(&tx), true, 50_001, &script),
        Err(FundingError::OutputMismatch)
    );
}

#[test]
fn outputs_are_counted_by_value_and_script() {
    let outputs = vec![
        TxOutput { value: 5, script_pubkey: vec![1, 2] },
        TxOutput { value: 5, script_pubkey: vec![1, 3] },
        TxOutput { value: 6, script_pubkey: vec![1, 2] },
        TxOutput { value: 5, script_pubkey: vec![1, 2] },
    ];
    assert_eq!(count_paying(&outputs, 5, &vec![1, 2]), 2);
    assert_eq!(count_paying(&outputs, 6, &vec![1, 2]), 1);
    assert_eq!(count_paying(&outputs, 6, &vec![1, 3]), 0);
    assert_eq!(count_paying(&outputs, 5, &vec![1]), 0);
    assert_eq!(count_paying(&vec![], 5, &vec![1, 2]), 0);
}

#[test]
fn signet_has_no_address_network() {
    assert_eq!(Network::Bitcoin.to_address_network(), Some(AddressNetwork::Bitcoin));
    assert_eq!(Network::Testnet.to_address_network(), Some(AddressNetwork::Testnet));
    assert_eq!(Network::Regtest.to_address_network(), Some(AddressNetwork::Regtest));
    assert_eq!(Network::Signet.to_address_network(), None);
}
