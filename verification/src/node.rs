use vstd::prelude::*;

verus! {

/// A request that the library hands to whoever talks to the node; the answer comes back
/// as a `Reply`.
#[derive(Debug)]
pub enum Request {
    /// `getnewaddress`, with the given label.
    NewAddress { label: Option<String> },
    /// `generatetoaddress` for `count` blocks, to the address just obtained.
    GenerateBlocks { count: u64 },
    /// `getblockcount`.
    BlockCount,
    /// `getbalance`.
    Balance,
    /// `getrawchangeaddress` for a legacy address.
    ChangeAddress,
    /// `sendtoaddress` of `amount_btc` whole bitcoins to the trader's address.
    Send { amount_btc: u64 },
    /// After a pause of `pause_millis` milliseconds, `gettransaction` for the transfer.
    FetchTransaction { pause_millis: u64 },
    /// `decoderawtransaction` of the transfer's raw bytes.
    DecodeTransaction,
    /// `getaddressinfo` for `address`.
    AddressInfo { address: String },
    /// `getmempoolentry` for the transfer.
    MempoolEntry,
    /// Nothing more to ask.
    Finished,
}

/// What the node said about whether an address belongs to the wallet.
#[derive(Debug)]
pub enum Ownership {
    /// The lookup failed.
    Unknown,
    /// The lookup answered, with the wallet's `ismine` flag where it gave one.
    Reported(Option<bool>),
}

/// One output of a decoded transaction, as plain values.
#[derive(Debug)]
pub struct TxOutput {
    /// The `address` field of the output's script, where the node gave one.
    pub address: Option<String>,
    /// The (older) `addresses` list of the output's script.
    pub addresses: Vec<String>,
    /// The raw output script.
    pub script: Vec<u8>,
    /// The value, in bitcoins, as text.
    pub value: String,
}

/// A `TxOutput` as character sequences.
pub struct TxOutputView {
    pub address: Option<Seq<char>>,
    pub addresses: Seq<Seq<char>>,
    pub script: Seq<u8>,
    pub value: Seq<char>,
}

impl View for TxOutput {
    type V = TxOutputView;

    open spec fn view(&self) -> TxOutputView {
        TxOutputView {
            address: match self.address {
                Some(a) => Some(a@),
                None => None,
            },
            addresses: self.addresses.deep_view(),
            script: self.script@,
            value: self.value@,
        }
    }
}

/// The answer to a `Request`.
#[derive(Debug)]
pub enum Reply {
    /// A new (receiving or change) address, as text.
    Address(String),
    /// The hashes of the blocks just generated, as text.
    Blocks(Vec<String>),
    /// The block count.
    Height(u64),
    /// The wallet's balance in bitcoins, as text.
    Balance(String),
    /// The id of the transaction just sent.
    Txid(String),
    /// The fee of the transaction, in bitcoins as scientific text, where the node gave one.
    Fee(Option<String>),
    /// The outputs of the decoded transaction.
    Outputs(Vec<TxOutput>),
    /// Whether the address asked about is the wallet's.
    Ownership(Ownership),
    /// The base fee of the mempool entry, in bitcoins as scientific text.
    MempoolFee(String),
}

} // verus!
