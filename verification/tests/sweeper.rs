use ldk_node_core::protocol::{Action, ConfirmationTarget, Outcome, Reply, SweepError};
use ldk_node_core::sweeper::{SweepStep, Sweeper};

fn two_outputs() -> Vec<Vec<u8>> {
    vec![vec![0x01, 0xaa], vec![0x02, 0xbb, 0xcc]]
}

fn sweeper_at_signing() -> Sweeper {
    let sweeper = match Sweeper::start(two_outputs()) {
        SweepStep::Ask(sweeper, _) => sweeper,
        other => panic!("no sweep: {:?}", other),
    };
    let sweeper = match sweeper.step(Reply::Address { script_pubkey: vec![0x00, 0x14] }) {
        SweepStep::Ask(sweeper, _) => sweeper,
        other => panic!("no sweep: {:?}", other),
    };
    match sweeper.step(Reply::FeeRate { sat_per_kw: 253 }) {
        SweepStep::Ask(sweeper, _) => sweeper,
        other => panic!("no sweep: {:?}", other),
    }
}

#[test]
fn sweep_spends_all_outputs_and_broadcasts() {
    let sweeper = match Sweeper::start(two_outputs()) {
        SweepStep::Ask(sweeper, action) => {
            assert_eq!(action, Action::GetNewAddress);
            assert_eq!(sweeper, Sweeper::Addressing { outputs: two_outputs() });
            sweeper
        }
        other => panic!("no sweep: {:?}", other),
    };
    let sweeper = match sweeper.step(Reply::Address { script_pubkey: vec![0x00, 0x14, 0x07] }) {
        SweepStep::Ask(sweeper, action) => {
            assert_eq!(action, Action::EstimateFeeRate { target: ConfirmationTarget::Normal });
            sweeper
        }
        other => panic!("no sweep: {:?}", other),
    };
    let sweeper = match sweeper.step(Reply::FeeRate { sat_per_kw: 2000 }) {
        SweepStep::Ask(sweeper, action) => {
            assert_eq!(
                action,
                Action::SpendOutputs {
                    outputs: two_outputs(),
                    destination_script: vec![0x00, 0x14, 0x07],
                    feerate_sat_per_kw: 2000,
                }
            );
            assert_eq!(sweeper, Sweeper::Signing);
            sweeper
        }
        other => panic!("no sweep: {:?}", other),
    };
    let sweeper = match sweeper.step(Reply::Spend { transaction: vec![9, 9, 9] }) {
        SweepStep::Ask(sweeper, action) => {
            assert_eq!(action, Action::Broadcast { transaction: vec![9, 9, 9] });
            assert_eq!(sweeper, Sweeper::Broadcasting);
            sweeper
        }
        other => panic!("no sweep: {:?}", other),
    };
    assert_eq!(sweeper.step(Reply::Done), SweepStep::Done(Outcome::OutputsSwept));
}

#[test]
fn failed_signing_broadcasts_nothing() {
    let next = sweeper_at_signing().step(Reply::Failed);
    assert_eq!(next, SweepStep::Done(Outcome::SweepAborted { cause: SweepError::SigningFailed }));
}

#[test]
fn sweep_without_an_address_is_given_up() {
    let sweeper = match Sweeper::start(two_outputs()) {
        SweepStep::Ask(sweeper, _) => sweeper,
        other => panic!("no sweep: {:?}", other),
    };
    assert_eq!(
        sweeper.step(Reply::Failed),
        SweepStep::Done(Outcome::SweepAborted { cause: SweepError::NoAddress })
    );
}

#[test]
fn sweep_without_a_fee_rate_is_given_up() {
    let sweeper = Sweeper::Pricing { outputs: two_outputs(), destination_script: vec![1] };
    assert_eq!(
        sweeper.step(Reply::Failed),
        SweepStep::Done(Outcome::SweepAborted { cause: SweepError::NoFeeRate })
    );
}

#[test]
fn broadcast_ends_the_sweep_whatever_the_reply() {
    assert_eq!(Sweeper::Broadcasting.step(Reply::Failed), SweepStep::Done(Outcome::OutputsSwept));
    assert_eq!(Sweeper::Broadcasting.step(Reply::Done), SweepStep::Done(Outcome::OutputsSwept));
}

#[test]
fn sweep_of_no_outputs_still_asks_the_wallet() {
    assert_eq!(
        Sweeper::start(vec![]),
        SweepStep::Ask(Sweeper::Addressing { outputs: vec![] }, Action::GetNewAddress)
    );
}
