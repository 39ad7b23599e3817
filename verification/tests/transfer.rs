use tx_report::node::{Ownership, Reply, Request, TxOutput};
use tx_report::transfer::{
    address_of, output_role, MempoolTransfer, MempoolTransferStage, OutputRole, Transfer,
    TransferStage,
};
use tx_report::transaction_data::TransactionData;

const ZERO_HASH_REGTEST: &str = "mfWxJ45yp2SFn7UciZyNpvDKrzbhyfKrY8";

fn p2pkh_zero_script() -> Vec<u8> {
    let mut script = vec![0x76, 0xa9, 0x14];
    script.extend([0u8; 20]);
    script.extend([0x88, 0xac]);
    script
}

fn output(address: Option<&str>, addresses: &[&str], script: Vec<u8>, value: &str) -> TxOutput {
    TxOutput {
        address: address.map(|a| a.to_string()),
        addresses: addresses.iter().map(|a| a.to_string()).collect(),
        script,
        value: value.to_string(),
    }
}

fn feed(transfer: &mut Transfer, data: &mut TransactionData, reply: Reply) -> Request {
    assert!(transfer.expects(&reply));
    transfer.step(data, reply)
}

#[test]
fn address_comes_from_field_then_list_then_script() {
    let o = output(Some("a"), &["b"], p2pkh_zero_script(), "1");
    assert_eq!(address_of(&o), Some("a".to_string()));
    let o = output(None, &["b", "c"], p2pkh_zero_script(), "1");
    assert_eq!(address_of(&o), Some("b".to_string()));
    let o = output(None, &[], p2pkh_zero_script(), "1");
    assert_eq!(address_of(&o), Some(ZERO_HASH_REGTEST.to_string()));
    let o = output(None, &[], vec![0x6a, 0x01, 0x00], "0");
    assert_eq!(address_of(&o), None);
}

#[test]
fn roles_of_outputs() {
    let trader = "t".to_string();
    let change = "c".to_string();
    assert_eq!(output_role(&None, &trader, &change, true), OutputRole::Unaddressed);
    assert_eq!(output_role(&Some("t".to_string()), &trader, &change, true), OutputRole::Trader);
    assert_eq!(output_role(&Some("c".to_string()), &trader, &change, true), OutputRole::Change);
    assert_eq!(output_role(&Some("x".to_string()), &trader, &change, true), OutputRole::Candidate);
    assert_eq!(output_role(&Some("x".to_string()), &trader, &change, false), OutputRole::Unparsable);
}

fn sent_transfer(data: &mut TransactionData) -> Transfer {
    let (mut transfer, request) = Transfer::start(20);
    assert!(matches!(request, Request::NewAddress { label: Some(ref l) } if l == "Received"));
    let request = feed(&mut transfer, data, Reply::Address("trader".to_string()));
    assert!(matches!(request, Request::ChangeAddress));
    assert_eq!(data.trader_output_address, "trader");
    let request = feed(&mut transfer, data, Reply::Address("change".to_string()));
    assert!(matches!(request, Request::Send { amount_btc: 20 }));
    assert_eq!(data.miner_change_address, "change");
    let request = feed(&mut transfer, data, Reply::Txid("tx1".to_string()));
    assert!(matches!(request, Request::FetchTransaction { pause_millis: 100 }));
    assert_eq!(data.transaction_id, "tx1");
    assert_eq!(data.trader_output_amount, "20");
    let request = feed(&mut transfer, data, Reply::Fee(Some("-1.41e-5".to_string())));
    assert!(matches!(request, Request::DecodeTransaction));
    assert_eq!(data.transaction_fees, "-1.41e-5");
    assert_eq!(transfer.stage, TransferStage::AwaitOutputs);
    transfer
}

#[test]
fn transfer_records_change_and_asks_about_unknown_outputs() {
    let mut data = TransactionData::new();
    let mut transfer = sent_transfer(&mut data);
    let outputs = vec![
        output(Some("trader"), &[], vec![], "20"),
        output(None, &["change"], vec![], "29.9"),
        output(None, &[], vec![0x6a, 0x01, 0x00], "0"),
        output(None, &[], p2pkh_zero_script(), "5"),
        output(Some("zzz"), &[], vec![], "1"),
    ];
    let request = feed(&mut transfer, &mut data, Reply::Outputs(outputs));
    assert!(matches!(request, Request::AddressInfo { ref address } if address == ZERO_HASH_REGTEST));
    assert_eq!(transfer.cursor, 3);
    assert_eq!(data.miner_change_amount, "29.9");
    assert_eq!(data.miner_change_address, "change");

    let request = feed(&mut transfer, &mut data, Reply::Ownership(Ownership::Reported(Some(true))));
    assert!(matches!(request, Request::Finished));
    assert_eq!(transfer.stage, TransferStage::Done);
    assert_eq!(data.miner_change_amount, "5");
    assert_eq!(data.miner_change_address, ZERO_HASH_REGTEST);
    assert_eq!(data.trader_output_address, "trader");
}

#[test]
fn outputs_not_owned_are_left_alone() {
    for reply in [
        Ownership::Unknown,
        Ownership::Reported(None),
        Ownership::Reported(Some(false)),
    ] {
        let mut data = TransactionData::new();
        let mut transfer = sent_transfer(&mut data);
        let outputs = vec![output(None, &[], p2pkh_zero_script(), "5")];
        let request = feed(&mut transfer, &mut data, Reply::Outputs(outputs));
        assert!(matches!(request, Request::AddressInfo { .. }));
        let request = feed(&mut transfer, &mut data, Reply::Ownership(reply));
        assert!(matches!(request, Request::Finished));
        assert_eq!(data.miner_change_amount, "");
        assert_eq!(data.miner_change_address, "change");
    }
}

#[test]
fn missing_fee_and_no_outputs() {
    let (mut transfer, _) = Transfer::start(3);
    let mut data = TransactionData::new();
    transfer.step(&mut data, Reply::Address("t".to_string()));
    transfer.step(&mut data, Reply::Address("c".to_string()));
    transfer.step(&mut data, Reply::Txid("x".to_string()));
    assert_eq!(data.trader_output_amount, "3");
    let request = transfer.step(&mut data, Reply::Fee(None));
    assert!(matches!(request, Request::DecodeTransaction));
    assert_eq!(data.transaction_fees, "");
    assert!(!transfer.expects(&Reply::Ownership(Ownership::Unknown)));
    let request = transfer.step(&mut data, Reply::Outputs(vec![]));
    assert!(matches!(request, Request::Finished));
}

#[test]
fn mempool_transfer_sends_twenty_and_records_spent_fee() {
    let mut data = TransactionData::new();
    let (mut transfer, request) = MempoolTransfer::start(7);
    assert!(matches!(request, Request::NewAddress { label: None }));
    let steps = [
        Reply::Address("trader".to_string()),
        Reply::Address("change".to_string()),
        Reply::Txid("tx".to_string()),
        Reply::MempoolFee("1.41e-5".to_string()),
        Reply::Balance("29.99998590".to_string()),
    ];
    let mut requests = Vec::new();
    for reply in steps {
        assert!(transfer.expects(&reply));
        requests.push(transfer.step(&mut data, reply));
    }
    assert!(matches!(requests[0], Request::ChangeAddress));
    assert!(matches!(requests[1], Request::Send { amount_btc: 20 }));
    assert!(matches!(requests[2], Request::MempoolEntry));
    assert!(matches!(requests[3], Request::Balance));
    assert!(matches!(requests[4], Request::Finished));
    assert_eq!(transfer.stage, MempoolTransferStage::Done);
    assert_eq!(data.trader_output_address, "trader");
    assert_eq!(data.miner_change_address, "change");
    assert_eq!(data.transaction_id, "tx");
    assert_eq!(data.trader_output_amount, "7");
    assert_eq!(data.transaction_fees, "-1.41e-5");
    assert_eq!(data.miner_change_amount, "29.99998590");
}
