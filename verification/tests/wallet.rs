use tx_report::wallet::{load_failure_remedy, send_outcome, wallet_url, LoadFailure};

#[test]
fn wallet_url_names_the_wallet() {
    assert_eq!(wallet_url("Miner"), "http://127.0.0.1:18443/wallet/Miner");
    assert_eq!(wallet_url("Trader"), "http://127.0.0.1:18443/wallet/Trader");
    assert_eq!(wallet_url(""), "http://127.0.0.1:18443/wallet/");
}

#[test]
fn corrupt_or_missing_wallet_is_created() {
    assert_eq!(
        load_failure_remedy("JSON-RPC error: Wallet file verification failed. Failed to load database"),
        LoadFailure::CreateWallet
    );
    assert_eq!(
        load_failure_remedy("Wallet file not found: /tmp/Miner"),
        LoadFailure::CreateWallet
    );
}

#[test]
fn other_load_errors_are_passed_on() {
    assert_eq!(
        load_failure_remedy("Wallet \"Miner\" is already loaded."),
        LoadFailure::GiveUp
    );
    assert_eq!(load_failure_remedy(""), LoadFailure::GiveUp);
}

#[test]
fn send_outcome_requires_completion() {
    assert_eq!(send_outcome(true, "abcd".to_string()), Ok("abcd".to_string()));
    assert_eq!(
        send_outcome(false, "abcd".to_string()),
        Err("send did not complete (transaction not fully signed)".to_string())
    );
}
