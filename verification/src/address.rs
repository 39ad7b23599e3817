use vstd::prelude::*;

verus! {

/// The address, on the regtest network, that `bitcoin::Address::from_script` recognises in
/// an output script, written out by the address's `Display`; `None` for a script of no
/// standard kind.
pub uninterp spec fn script_address(script: Seq<u8>) -> Option<Seq<char>>;

/// Whether the text parses as a `bitcoin::Address<NetworkUnchecked>`.
pub uninterp spec fn is_address(text: Seq<char>) -> bool;

/// Whether the text parses as an address that `require_network(Network::Regtest)` accepts.
pub uninterp spec fn is_regtest_address(text: Seq<char>) -> bool;

/// Calls `bitcoin::Address::from_script` with `Network::Regtest` on the script bytes and,
/// where it returns an address, writes it with `to_string`. Claimed: the result is the
/// named `script_address` of the bytes, so the same script always gives the same answer;
/// which text that is (a base58 or bech32 encoding) is left to the crate.
#[verifier::external_body]
pub(crate) fn regtest_address_from_script(script: &Vec<u8>) -> (address: Option<String>)
    ensures
        match address {
            Some(a) => script_address(script@) == Some(a@),
            None => script_address(script@) is None,
        },
{
    match bitcoin::Address::from_script(
        bitcoin::Script::from_bytes(script.as_slice()),
        bitcoin::Network::Regtest,
    ) {
        Ok(a) => Some(a.to_string()),
        Err(_) => None,
    }
}

/// Calls `FromStr` for `bitcoin::Address<NetworkUnchecked>` on the text. Claimed: the
/// answer is the named `is_address` of the text; which texts parse is left to the crate.
#[verifier::external_body]
pub(crate) fn parses_as_address(text: &str) -> (parses: bool)
    ensures
        parses == is_address(text@),
{
    match text.parse::<bitcoin::Address<bitcoin::address::NetworkUnchecked>>() {
        Ok(_) => true,
        Err(_) => false,
    }
}

/// Calls `bitcoin::Address::<NetworkUnchecked>::require_network(Network::Regtest)` on the
/// address that the text parses to (a text that does not parse is no regtest address).
/// Claimed: the answer is the named `is_regtest_address` of the text, and an accepted text
/// also parses, as the crate's source shows (`require_network` needs a parsed address).
#[verifier::external_body]
pub(crate) fn accepted_on_regtest(text: &str) -> (accepted: bool)
    ensures
        accepted == is_regtest_address(text@),
        accepted ==> is_address(text@),
{
    match text.parse::<bitcoin::Address<bitcoin::address::NetworkUnchecked>>() {
        Ok(a) => match a.require_network(bitcoin::Network::Regtest) {
            Ok(_) => true,
            Err(_) => false,
        },
        Err(_) => false,
    }
}

} // verus!
