use vstd::prelude::*;
use crate::text::{contains, contains_text, lemma_contains_inside};

verus! {

/// The address of the RPC endpoint of the regtest node's wallet named `name`.
pub open spec fn wallet_url_text(name: Seq<char>) -> Seq<char> {
    "http://127.0.0.1:18443/wallet/"@ + name
}

/// The RPC endpoint of the wallet named `name` on the local regtest node.
pub fn wallet_url(name: &str) -> (url: String)
    ensures
        url@ == wallet_url_text(name@),
{
    let mut url = String::from_str("http://127.0.0.1:18443/wallet/");
    url.append(name);
    url
}

/// What to do when loading a wallet failed.
#[derive(PartialEq, Eq, Structural, Clone, Copy, Debug)]
pub enum LoadFailure {
    /// The wallet is corrupt, locked or missing: create a fresh one.
    CreateWallet,
    /// Any other failure: pass the error on.
    GiveUp,
}

/// A load error whose message tells of a failed wallet file check or a missing wallet
/// calls for a fresh wallet.
pub open spec fn calls_for_new_wallet(message: Seq<char>) -> bool {
    contains_text(message, "Wallet file verification failed"@) || contains_text(message, "not found"@)
}

/// What to do after `loadwallet` failed with `message`.
pub fn load_failure_remedy(message: &str) -> (remedy: LoadFailure)
    ensures
        remedy == (if calls_for_new_wallet(message@) {
            LoadFailure::CreateWallet
        } else {
            LoadFailure::GiveUp
        }),
        contains_text(message@, "not found"@) ==> remedy == LoadFailure::CreateWallet,
        contains_text(message@, "Wallet file verification failed"@) ==> remedy == LoadFailure::CreateWallet,
{
    if contains(message, "Wallet file verification failed") || contains(message, "not found") {
        LoadFailure::CreateWallet
    } else {
        LoadFailure::GiveUp
    }
}

/// Any message that holds "not found" or "Wallet file verification failed", whatever stands
/// before and after it, calls for a new wallet; a message that calls for one holds one of
/// the two.
pub proof fn lemma_new_wallet_messages(before: Seq<char>, after: Seq<char>, message: Seq<char>)
    ensures
        calls_for_new_wallet(before + "not found"@ + after),
        calls_for_new_wallet(before + "Wallet file verification failed"@ + after),
        calls_for_new_wallet(message) ==> contains_text(message, "not found"@)
            || contains_text(message, "Wallet file verification failed"@),
{
    lemma_contains_inside(before, "not found"@, after);
    lemma_contains_inside(before, "Wallet file verification failed"@, after);
}

/// The error message when a `send` call did not fully sign its transaction.
pub open spec fn incomplete_send_message() -> Seq<char> {
    "send did not complete (transaction not fully signed)"@
}

/// The outcome of a `send` call: its transaction id when the node reports the
/// transaction complete, an error message otherwise.
pub fn send_outcome(complete: bool, txid: String) -> (outcome: Result<String, String>)
    ensures
        match outcome {
            Ok(id) => complete && id@ == txid@,
            Err(message) => !complete && message@ == incomplete_send_message(),
        },
{
    if !complete {
        return Err(String::from_str("send did not complete (transaction not fully signed)"));
    }
    Ok(txid)
}

} // verus!
