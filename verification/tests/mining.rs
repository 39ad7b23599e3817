use tx_report::mining::{CheckedMiningRound, MiningRound, MiningStage};
use tx_report::node::{Reply, Request};
use tx_report::transaction_data::TransactionData;

const REGTEST_ADDRESS: &str = "mfWxJ45yp2SFn7UciZyNpvDKrzbhyfKrY8";
const MAINNET_ADDRESS: &str = "1BvBMSEYstWetqTFn5Au4m4GFg7xJaNVN2";

fn feed(round: &mut MiningRound, data: &mut TransactionData, reply: Reply) -> Request {
    assert!(round.expects(&reply));
    round.step(data, reply)
}

#[test]
fn first_round_records_input_address_and_balance() {
    let mut data = TransactionData::new();
    let (mut round, request) = MiningRound::start(101);
    assert!(matches!(request, Request::NewAddress { label: Some(ref l) } if l == "Mining Reward"));
    assert_eq!(round.stage, MiningStage::AwaitAddress);

    let request = feed(&mut round, &mut data, Reply::Address("addr1".to_string()));
    assert!(matches!(request, Request::GenerateBlocks { count: 101 }));
    assert_eq!(data.miner_input_address, "addr1");
    assert_eq!(data.miner_change_address, "");

    let hashes = (0..101).map(|i| format!("h{i}")).collect();
    let request = feed(&mut round, &mut data, Reply::Blocks(hashes));
    assert!(matches!(request, Request::Balance));
    assert_eq!(data.block_hash, "");

    let request = feed(&mut round, &mut data, Reply::Balance("50".to_string()));
    assert!(matches!(request, Request::Finished));
    assert_eq!(data.miner_input_amount, "50");
    assert_eq!(round.stage, MiningStage::Done);
}

#[test]
fn confirming_round_records_block_and_keeps_input() {
    let mut data = TransactionData::new();
    data.set_miner_input_address("addr1".to_string());
    data.set_miner_input_amount("50".to_string());
    let (mut round, _) = MiningRound::start(1);

    let request = feed(&mut round, &mut data, Reply::Address("addr2".to_string()));
    assert!(matches!(request, Request::GenerateBlocks { count: 1 }));
    assert_eq!(data.miner_input_address, "addr1");
    assert_eq!(data.miner_change_address, "addr2");

    let request = feed(&mut round, &mut data, Reply::Blocks(vec!["00ab".to_string()]));
    assert!(matches!(request, Request::BlockCount));
    assert_eq!(data.block_hash, "00ab");

    let request = feed(&mut round, &mut data, Reply::Height(102));
    assert!(matches!(request, Request::Balance));
    assert_eq!(data.block_height, "102");

    let request = feed(&mut round, &mut data, Reply::Balance("79.99".to_string()));
    assert!(matches!(request, Request::Finished));
    assert_eq!(data.miner_input_amount, "50");
}

#[test]
fn round_only_expects_its_pending_answer() {
    let (round, _) = MiningRound::start(3);
    assert!(round.expects(&Reply::Address("a".to_string())));
    assert!(!round.expects(&Reply::Height(1)));
    assert!(!round.expects(&Reply::Balance("1".to_string())));
    assert!(!round.expects(&Reply::Txid("t".to_string())));
}

#[test]
fn checked_round_mines_to_regtest_address() {
    let mut data = TransactionData::new();
    let (mut round, request) = CheckedMiningRound::start(101);
    assert!(matches!(request, Request::NewAddress { label: None }));
    let reply = Reply::Address(REGTEST_ADDRESS.to_string());
    assert!(round.expects(&reply));
    let request = round.step(&mut data, reply);
    assert!(matches!(request, Request::GenerateBlocks { count: 101 }));
    assert_eq!(data.miner_input_address, REGTEST_ADDRESS);
}

#[test]
fn checked_round_skips_mining_for_other_networks() {
    let mut data = TransactionData::new();
    let (mut round, _) = CheckedMiningRound::start(101);
    let request = round.step(&mut data, Reply::Address(MAINNET_ADDRESS.to_string()));
    assert!(matches!(request, Request::Balance));
    assert_eq!(round.stage, MiningStage::AwaitBalance);
    assert_eq!(data.miner_input_address, MAINNET_ADDRESS);

    let request = round.step(&mut data, Reply::Balance("0".to_string()));
    assert!(matches!(request, Request::Finished));
    assert_eq!(data.miner_input_amount, "0");
}

#[test]
fn checked_round_keeps_only_first_address() {
    let mut data = TransactionData::new();
    data.set_miner_input_address("first".to_string());
    let (mut round, _) = CheckedMiningRound::start(1);
    let request = round.step(&mut data, Reply::Address("not an address".to_string()));
    assert!(matches!(request, Request::Balance));
    assert_eq!(data.miner_input_address, "first");
    assert_eq!(data.miner_change_address, "");
}
