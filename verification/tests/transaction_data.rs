use tx_report::transaction_data::TransactionData;

fn sample() -> TransactionData {
    TransactionData::with_all_fields(
        "txid".to_string(),
        "in_addr".to_string(),
        "50".to_string(),
        "trader_addr".to_string(),
        "20".to_string(),
        "change_addr".to_string(),
        "29.9999859".to_string(),
        "-1.41e-5".to_string(),
        "102".to_string(),
        "hash".to_string(),
    )
}

#[test]
fn new_record_is_empty_and_incomplete() {
    let data = TransactionData::new();
    assert!(data.to_ordered_vec().iter().all(|f| f.is_empty()));
    assert_eq!(data.to_ordered_vec().len(), 10);
    assert!(!data.is_complete());
}

#[test]
fn default_equals_new() {
    let data = TransactionData::default();
    assert_eq!(data.to_ordered_vec(), TransactionData::new().to_ordered_vec());
}

#[test]
fn all_fields_come_back_in_order() {
    let data = sample();
    assert_eq!(
        data.to_ordered_vec(),
        vec![
            "txid", "in_addr", "50", "trader_addr", "20", "change_addr", "29.9999859", "-1.41e-5",
            "102", "hash"
        ]
    );
    assert!(data.is_complete());
}

#[test]
fn one_empty_field_makes_it_incomplete() {
    let mut data = sample();
    data.set_block_hash(String::new());
    assert!(!data.is_complete());
    data.set_block_hash("h".to_string());
    assert!(data.is_complete());
    data.set_miner_input_amount(String::new());
    assert!(!data.is_complete());
}

#[test]
fn each_setter_touches_its_own_field() {
    let mut data = TransactionData::new();
    data.set_transaction_id("a".to_string());
    data.set_miner_input_address("b".to_string());
    data.set_miner_input_amount("c".to_string());
    data.set_trader_output_address("d".to_string());
    data.set_trader_output_amount("e".to_string());
    data.set_miner_change_address("f".to_string());
    data.set_miner_change_amount("g".to_string());
    data.set_transaction_fees("h".to_string());
    data.set_block_height("i".to_string());
    data.set_block_hash("j".to_string());
    assert_eq!(
        data.to_ordered_vec(),
        vec!["a", "b", "c", "d", "e", "f", "g", "h", "i", "j"]
    );
    data.set_miner_change_address("F".to_string());
    assert_eq!(
        data.to_ordered_vec(),
        vec!["a", "b", "c", "d", "e", "F", "g", "h", "i", "j"]
    );
    assert_eq!(data.miner_change_address, "F");
}

#[test]
fn field_names_in_reporting_order() {
    assert_eq!(
        TransactionData::field_names(),
        vec![
            "transaction_id",
            "miner_input_address",
            "miner_input_amount",
            "trader_output_address",
            "trader_output_amount",
            "miner_change_address",
            "miner_change_amount",
            "transaction_fees",
            "block_height",
            "block_hash"
        ]
    );
}

#[test]
fn report_has_one_line_per_field() {
    let data = sample();
    assert_eq!(
        data.report_text(),
        "txid\nin_addr\n50\ntrader_addr\n20\nchange_addr\n29.9999859\n-1.41e-5\n102\nhash\n"
    );
    assert_eq!(TransactionData::new().report_text(), "\n\n\n\n\n\n\n\n\n\n");
}
