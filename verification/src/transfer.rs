use vstd::prelude::*;
use crate::address::{is_address, parses_as_address, regtest_address_from_script, script_address};
use crate::node::{Ownership, Reply, Request, TxOutput, TxOutputView};
use crate::text::{decimal, decimal_string};
use crate::transaction_data::{TransactionData, TransactionRecord};

verus! {

/// The address an output pays to: the script's `address`, else the first of its
/// `addresses`, else the regtest address of the script itself.
pub open spec fn output_address(output: TxOutputView) -> Option<Seq<char>> {
    match output.address {
        Some(a) => Some(a),
        None => if output.addresses.len() > 0 {
            Some(output.addresses[0])
        } else {
            script_address(output.script)
        },
    }
}

/// The address an output pays to, as `output_address` defines it.
pub fn address_of(output: &TxOutput) -> (address: Option<String>)
    ensures
        match address {
            Some(a) => output_address(output@) == Some(a@),
            None => output_address(output@) is None,
        },
        output.address matches Some(listed) ==> (address matches Some(a) && a@ == listed@),
        output.address is None && output.addresses.len() > 0
            ==> (address matches Some(a) && a@ == output.addresses[0]@),
{
    match &output.address {
        Some(a) => Some(a.clone()),
        None => if output.addresses.len() > 0 {
            Some(output.addresses[0].clone())
        } else {
            regtest_address_from_script(&output.script)
        },
    }
}

/// What an output of the transfer is to the miner.
#[derive(PartialEq, Eq, Structural, Clone, Copy, Debug)]
pub enum OutputRole {
    /// No address could be told for it.
    Unaddressed,
    /// It pays the trader.
    Trader,
    /// It pays the change address obtained before sending.
    Change,
    /// It pays another valid address, which may still be the miner's.
    Candidate,
    /// It pays a text that is no address.
    Unparsable,
}

/// The role of an output paying `address`, where `parses` tells whether that address
/// parses.
pub open spec fn role(address: Option<Seq<char>>, trader: Seq<char>, change: Seq<char>, parses: bool) -> OutputRole {
    match address {
        None => OutputRole::Unaddressed,
        Some(a) => if a == trader {
            OutputRole::Trader
        } else if a == change {
            OutputRole::Change
        } else if parses {
            OutputRole::Candidate
        } else {
            OutputRole::Unparsable
        },
    }
}

/// The role of an output, as `role` defines it.
pub fn output_role(address: &Option<String>, trader: &String, change: &String, parses: bool) -> (r: OutputRole)
    ensures
        r == role(
            match address {
                Some(a) => Some(a@),
                None => None,
            },
            trader@,
            change@,
            parses,
        ),
{
    match address {
        None => OutputRole::Unaddressed,
        Some(a) => if *a == *trader {
            OutputRole::Trader
        } else if *a == *change {
            OutputRole::Change
        } else if parses {
            OutputRole::Candidate
        } else {
            OutputRole::Unparsable
        },
    }
}

/// The role of an output of a transfer to `trader` with change to `change`.
pub open spec fn role_of(output: TxOutputView, trader: Seq<char>, change: Seq<char>) -> OutputRole {
    let address = output_address(output);
    role(address, trader, change, address is Some && is_address(address->0))
}

/// Walking the outputs from `from` on: outputs paying the change address have their value
/// recorded as the change amount, until an output that may be the miner's is met. Gives the
/// record then, and the position of that output (`None` when all were walked).
pub open spec fn scan(
    rec: TransactionRecord,
    outputs: Seq<TxOutputView>,
    trader: Seq<char>,
    change: Seq<char>,
    from: int,
) -> (TransactionRecord, Option<int>)
    decreases outputs.len() - from,
{
    if from < 0 || from >= outputs.len() {
        (rec, None)
    } else {
        match role_of(outputs[from], trader, change) {
            OutputRole::Change => scan(
                TransactionRecord { miner_change_amount: outputs[from].value, ..rec },
                outputs,
                trader,
                change,
                from + 1,
            ),
            OutputRole::Candidate => (rec, Some(from)),
            _ => scan(rec, outputs, trader, change, from + 1),
        }
    }
}

/// The record after the node says that an output, paying `address`, is the miner's: that
/// output's value and address become the change amount and address.
pub open spec fn with_owned_output(rec: TransactionRecord, output: TxOutputView, address: Seq<char>) -> TransactionRecord {
    TransactionRecord { miner_change_amount: output.value, miner_change_address: address, ..rec }
}

/// Walking the outputs changes nothing in the record but the change amount.
pub proof fn lemma_scan_touches_only_change_amount(
    rec: TransactionRecord,
    outputs: Seq<TxOutputView>,
    trader: Seq<char>,
    change: Seq<char>,
    from: int,
)
    ensures
        scan(rec, outputs, trader, change, from).0 == (TransactionRecord {
            miner_change_amount: scan(rec, outputs, trader, change, from).0.miner_change_amount,
            ..rec
        }),
    decreases outputs.len() - from,
{
    if 0 <= from < outputs.len() {
        match role_of(outputs[from], trader, change) {
            OutputRole::Change => lemma_scan_touches_only_change_amount(
                TransactionRecord { miner_change_amount: outputs[from].value, ..rec },
                outputs,
                trader,
                change,
                from + 1,
            ),
            OutputRole::Candidate => {},
            _ => lemma_scan_touches_only_change_amount(rec, outputs, trader, change, from + 1),
        }
    }
}

/// A walk stops only at an output, at or after where it started, that pays a valid address
/// other than the trader's and the change address obtained before sending.
pub proof fn lemma_scan_stops_at_candidate(
    rec: TransactionRecord,
    outputs: Seq<TxOutputView>,
    trader: Seq<char>,
    change: Seq<char>,
    from: int,
)
    ensures
        scan(rec, outputs, trader, change, from).1 matches Some(k) ==> {
            &&& from <= k < outputs.len()
            &&& role_of(outputs[k], trader, change) == OutputRole::Candidate
        },
    decreases outputs.len() - from,
{
    if 0 <= from < outputs.len() {
        match role_of(outputs[from], trader, change) {
            OutputRole::Change => lemma_scan_stops_at_candidate(
                TransactionRecord { miner_change_amount: outputs[from].value, ..rec },
                outputs,
                trader,
                change,
                from + 1,
            ),
            OutputRole::Candidate => {},
            _ => lemma_scan_stops_at_candidate(rec, outputs, trader, change, from + 1),
        }
    }
}

/// An output that the wallet claims, found by a walk, never makes the trader's address the
/// change address: what is recorded is a valid address other than the trader's and the
/// change address obtained before sending.
pub proof fn lemma_owned_change_is_not_trader(
    rec: TransactionRecord,
    output: TxOutputView,
    trader: Seq<char>,
    change: Seq<char>,
)
    requires
        role_of(output, trader, change) == OutputRole::Candidate,
    ensures
        with_owned_output(rec, output, output_address(output)->0).miner_change_address != trader,
        with_owned_output(rec, output, output_address(output)->0).miner_change_address != change,
        is_address(with_owned_output(rec, output, output_address(output)->0).miner_change_address),
{
}

/// The address an output pays to is the one its script lists, whenever it lists one, and
/// whatever the older `addresses` list holds; without one it is the first of that list;
/// with neither, it is the address recognised in the script.
pub proof fn lemma_listed_address_wins(output: TxOutputView, listed: Seq<char>)
    ensures
        output.address == Some(listed) ==> output_address(output) == Some(listed),
        output.address is None && output.addresses.len() > 0
            ==> output_address(output) == Some(output.addresses[0]),
        output.address is None && output.addresses.len() == 0
            ==> output_address(output) == script_address(output.script),
{
}

/// An output paying the trader is passed over: the walk from it gives what the walk from
/// the next output gives, so its value is never taken for the change.
pub proof fn lemma_scan_skips_trader(
    rec: TransactionRecord,
    outputs: Seq<TxOutputView>,
    trader: Seq<char>,
    change: Seq<char>,
    i: int,
)
    requires
        0 <= i < outputs.len(),
        output_address(outputs[i]) == Some(trader),
    ensures
        scan(rec, outputs, trader, change, i) == scan(rec, outputs, trader, change, i + 1),
{
}

/// After a walk, the change amount is the one recorded before it, or the value of an output
/// (at or after where the walk started) that pays the change address and not the trader.
pub proof fn lemma_scan_change_amount_from_change_output(
    rec: TransactionRecord,
    outputs: Seq<TxOutputView>,
    trader: Seq<char>,
    change: Seq<char>,
    from: int,
)
    ensures
        ({
            let amount = scan(rec, outputs, trader, change, from).0.miner_change_amount;
            ||| amount == rec.miner_change_amount
            ||| exists|j: int|
                #![trigger outputs[j]]
                from <= j < outputs.len() && output_address(outputs[j]) == Some(change)
                    && change != trader && outputs[j].value == amount
        }),
    decreases outputs.len() - from,
{
    if 0 <= from < outputs.len() {
        match role_of(outputs[from], trader, change) {
            OutputRole::Change => {
                let rec2 = TransactionRecord { miner_change_amount: outputs[from].value, ..rec };
                lemma_scan_change_amount_from_change_output(rec2, outputs, trader, change, from + 1);
                let amount = scan(rec, outputs, trader, change, from).0.miner_change_amount;
                if amount == rec2.miner_change_amount {
                    assert(from <= from < outputs.len() && output_address(outputs[from]) == Some(change)
                        && change != trader && outputs[from].value == amount);
                }
            },
            OutputRole::Candidate => {},
            _ => lemma_scan_change_amount_from_change_output(rec, outputs, trader, change, from + 1),
        }
    }
}

/// Once the wallet owns the output asked about, the change address becomes the address asked
/// about, and the change amount that output's value, unless a later output paying the change
/// address (and not the trader) supplies it; every other field is kept.
pub proof fn lemma_owned_output_sets_change(
    rec: TransactionRecord,
    outputs: Seq<TxOutputView>,
    trader: Seq<char>,
    change: Seq<char>,
    k: int,
    address: Seq<char>,
)
    requires
        0 <= k < outputs.len(),
    ensures
        ({
            let after = scan(with_owned_output(rec, outputs[k], address), outputs, trader, change, k + 1).0;
            &&& after.miner_change_address == address
            &&& after == (TransactionRecord {
                miner_change_amount: after.miner_change_amount,
                miner_change_address: address,
                ..rec
            })
            &&& (after.miner_change_amount == outputs[k].value
                || exists|j: int|
                    #![trigger outputs[j]]
                    k < j < outputs.len() && output_address(outputs[j]) == Some(change)
                        && change != trader && outputs[j].value == after.miner_change_amount)
        }),
{
    let owned = with_owned_output(rec, outputs[k], address);
    lemma_scan_touches_only_change_amount(owned, outputs, trader, change, k + 1);
    lemma_scan_change_amount_from_change_output(owned, outputs, trader, change, k + 1);
}

/// Where a transfer stands: which answer it waits for.
#[derive(PartialEq, Eq, Structural, Clone, Copy, Debug)]
pub enum TransferStage {
    AwaitTraderAddress,
    AwaitChangeAddress,
    AwaitTxid,
    AwaitTransaction,
    AwaitOutputs,
    AwaitOwnership,
    Done,
}

/// The label under which the trader's receiving address is requested.
pub open spec fn receiving_label() -> Seq<char> {
    "Received"@
}

/// The pause, in milliseconds, between sending and reading the transaction back.
pub open spec fn settle_millis() -> u64 {
    100
}

/// Sending `amount_btc` bitcoins from the miner to a fresh labelled address of the trader,
/// then reading back the fee and finding, among the outputs, the miner's change.
pub struct Transfer {
    pub amount_btc: u64,
    pub stage: TransferStage,
    /// The trader's receiving address, once known.
    pub trader_address: String,
    /// The change address obtained before sending, once known.
    pub change_address: String,
    /// The outputs of the sent transaction, once decoded.
    pub outputs: Vec<TxOutput>,
    /// While awaiting ownership: the output asked about.
    pub cursor: usize,
    /// While awaiting ownership: the address asked about.
    pub pending_address: String,
}

/// Where a walk over the outputs leaves a transfer: asking about the output found, or done.
pub open spec fn walked_to(transfer: Transfer, found: Option<int>, request: Request) -> bool {
    match found {
        Some(k) => {
            &&& transfer.stage == TransferStage::AwaitOwnership
            &&& transfer.cursor == k
            &&& Some(transfer.pending_address@) == output_address(transfer.output_views()[k])
            &&& request matches Request::AddressInfo { address } && address@ == transfer.pending_address@
        },
        None => {
            &&& transfer.stage == TransferStage::Done
            &&& request == Request::Finished
        },
    }
}

impl Transfer {
    /// The outputs, as views.
    pub open spec fn output_views(&self) -> Seq<TxOutputView> {
        self.outputs@.map_values(|o: TxOutput| o@)
    }

    /// The transfer waits for this reply, and its cursor is in range while asking.
    pub open spec fn accepts(&self, reply: Reply) -> bool {
        match reply {
            Reply::Address(_) => self.stage == TransferStage::AwaitTraderAddress
                || self.stage == TransferStage::AwaitChangeAddress,
            Reply::Txid(_) => self.stage == TransferStage::AwaitTxid,
            Reply::Fee(_) => self.stage == TransferStage::AwaitTransaction,
            Reply::Outputs(_) => self.stage == TransferStage::AwaitOutputs,
            Reply::Ownership(_) => {
                &&& self.stage == TransferStage::AwaitOwnership
                &&& self.cursor < self.outputs.len()
            },
            _ => false,
        }
    }

    /// Whether the transfer waits for this reply.
    pub fn expects(&self, reply: &Reply) -> (ok: bool)
        ensures
            ok == self.accepts(*reply),
    {
        match reply {
            Reply::Address(_) => self.stage == TransferStage::AwaitTraderAddress
                || self.stage == TransferStage::AwaitChangeAddress,
            Reply::Txid(_) => self.stage == TransferStage::AwaitTxid,
            Reply::Fee(_) => self.stage == TransferStage::AwaitTransaction,
            Reply::Outputs(_) => self.stage == TransferStage::AwaitOutputs,
            Reply::Ownership(_) => {
                self.stage == TransferStage::AwaitOwnership && self.cursor < self.outputs.len()
            },
            _ => false,
        }
    }

    /// A transfer that first asks the trader's wallet for a labelled address.
    pub fn start(amount_btc: u64) -> (res: (Transfer, Request))
        ensures
            res.0.amount_btc == amount_btc,
            res.0.stage == TransferStage::AwaitTraderAddress,
            res.0.outputs@.len() == 0,
            res.1 matches Request::NewAddress { label: Some(label) } && label@ == receiving_label(),
    {
        let label = String::from_str("Received");
        proof { reveal_strlit("Received"); }
        (
            Transfer {
                amount_btc,
                stage: TransferStage::AwaitTraderAddress,
                trader_address: String::new(),
                change_address: String::new(),
                outputs: Vec::new(),
                cursor: 0,
                pending_address: String::new(),
            },
            Request::NewAddress { label: Some(label) },
        )
    }

    /// Walks the outputs from `from` on, as `scan` says, and asks about the first output
    /// that may be the miner's, or finishes.
    fn walk(&mut self, data: &mut TransactionData, from: usize) -> (request: Request)
        requires
            from <= old(self).outputs.len(),
        ensures
            final(self).amount_btc == old(self).amount_btc,
            final(self).trader_address == old(self).trader_address,
            final(self).change_address == old(self).change_address,
            final(self).outputs == old(self).outputs,
            ({
                let (rec, found) = scan(
                    old(data)@,
                    old(self).output_views(),
                    old(self).trader_address@,
                    old(self).change_address@,
                    from as int,
                );
                &&& final(data)@ == rec
                &&& walked_to(*final(self), found, request)
            }),
        decreases old(self).outputs.len() - from,
    {
        let ghost views = self.output_views();
        if from >= self.outputs.len() {
            self.stage = TransferStage::Done;
            return Request::Finished;
        }
        let address = address_of(&self.outputs[from]);
        let parses = match &address {
            Some(a) => parses_as_address(a.as_str()),
            None => false,
        };
        assert(views[from as int] == self.outputs[from as int]@);
        let r = output_role(&address, &self.trader_address, &self.change_address, parses);
        match r {
            OutputRole::Change => {
                let value = self.outputs[from].value.clone();
                data.set_miner_change_amount(value);
                self.walk(data, from + 1)
            },
            OutputRole::Candidate => {
                self.stage = TransferStage::AwaitOwnership;
                self.cursor = from;
                match address {
                    Some(a) => {
                        self.pending_address = a.clone();
                        Request::AddressInfo { address: a }
                    },
                    None => Request::Finished,
                }
            },
            _ => self.walk(data, from + 1),
        }
    }

    /// Takes the node's answer, records what it tells, and says what to ask next.
    pub fn step(&mut self, data: &mut TransactionData, reply: Reply) -> (request: Request)
        requires
            old(self).accepts(reply),
        ensures
            final(self).amount_btc == old(self).amount_btc,
            match reply {
                Reply::Address(address) => if old(self).stage == TransferStage::AwaitTraderAddress {
                    &&& final(data)@ == (TransactionRecord { trader_output_address: address@, ..old(data)@ })
                    &&& final(self).trader_address@ == address@
                    &&& final(self).change_address == old(self).change_address
                    &&& final(self).outputs == old(self).outputs
                    &&& final(self).stage == TransferStage::AwaitChangeAddress
                    &&& request == Request::ChangeAddress
                } else {
                    &&& final(data)@ == (TransactionRecord { miner_change_address: address@, ..old(data)@ })
                    &&& final(self).trader_address == old(self).trader_address
                    &&& final(self).change_address@ == address@
                    &&& final(self).outputs == old(self).outputs
                    &&& final(self).stage == TransferStage::AwaitTxid
                    &&& request == Request::Send { amount_btc: old(self).amount_btc }
                },
                Reply::Txid(txid) => {
                    &&& final(data)@ == (TransactionRecord {
                        transaction_id: txid@,
                        trader_output_amount: decimal(old(self).amount_btc as nat),
                        ..old(data)@
                    })
                    &&& final(self).trader_address == old(self).trader_address
                    &&& final(self).change_address == old(self).change_address
                    &&& final(self).outputs == old(self).outputs
                    &&& final(self).stage == TransferStage::AwaitTransaction
                    &&& request == Request::FetchTransaction { pause_millis: settle_millis() }
                },
                Reply::Fee(fee) => {
                    &&& final(data)@ == match fee {
                        Some(f) => TransactionRecord { transaction_fees: f@, ..old(data)@ },
                        None => old(data)@,
                    }
                    &&& final(self).trader_address == old(self).trader_address
                    &&& final(self).change_address == old(self).change_address
                    &&& final(self).outputs == old(self).outputs
                    &&& final(self).stage == TransferStage::AwaitOutputs
                    &&& request == Request::DecodeTransaction
                },
                Reply::Outputs(outputs) => {
                    let (rec, found) = scan(
                        old(data)@,
                        outputs@.map_values(|o: TxOutput| o@),
                        old(self).trader_address@,
                        old(self).change_address@,
                        0,
                    );
                    &&& final(self).outputs == outputs
                    &&& final(self).trader_address == old(self).trader_address
                    &&& final(self).change_address == old(self).change_address
                    &&& final(data)@ == rec
                    &&& walked_to(*final(self), found, request)
                },
                Reply::Ownership(ownership) => {
                    let k = old(self).cursor as int;
                    let views = old(self).output_views();
                    let owned = ownership == Ownership::Reported(Some(true));
                    let rec = if owned {
                        with_owned_output(old(data)@, views[k], old(self).pending_address@)
                    } else {
                        old(data)@
                    };
                    let (rec2, found) = scan(
                        rec,
                        views,
                        old(self).trader_address@,
                        old(self).change_address@,
                        k + 1,
                    );
                    &&& final(self).outputs == old(self).outputs
                    &&& final(self).trader_address == old(self).trader_address
                    &&& final(self).change_address == old(self).change_address
                    &&& final(data)@ == rec2
                    &&& walked_to(*final(self), found, request)
                },
                _ => false,
            },
    {
        match reply {
            Reply::Address(address) => {
                if self.stage == TransferStage::AwaitTraderAddress {
                    self.trader_address = address.clone();
                    data.set_trader_output_address(address);
                    self.stage = TransferStage::AwaitChangeAddress;
                    Request::ChangeAddress
                } else {
                    self.change_address = address.clone();
                    data.set_miner_change_address(address);
                    self.stage = TransferStage::AwaitTxid;
                    Request::Send { amount_btc: self.amount_btc }
                }
            },
            Reply::Txid(txid) => {
                data.set_transaction_id(txid);
                data.set_trader_output_amount(decimal_string(self.amount_btc));
                self.stage = TransferStage::AwaitTransaction;
                Request::FetchTransaction { pause_millis: 100 }
            },
            Reply::Fee(fee) => {
                match fee {
                    Some(f) => data.set_transaction_fees(f),
                    None => {},
                }
                self.stage = TransferStage::AwaitOutputs;
                Request::DecodeTransaction
            },
            Reply::Outputs(outputs) => {
                self.outputs = outputs;
                self.walk(data, 0)
            },
            Reply::Ownership(ownership) => {
                let k = self.cursor;
                let ghost views = self.output_views();
                assert(views[k as int] == self.outputs[k as int]@);
                let owned = match ownership {
                    Ownership::Reported(Some(mine)) => mine,
                    _ => false,
                };
                if owned {
                    let value = self.outputs[k].value.clone();
                    let address = self.pending_address.clone();
                    data.set_miner_change_amount(value);
                    data.set_miner_change_address(address);
                }
                self.walk(data, k + 1)
            },
            _ => Request::Finished,
        }
    }
}


/// Where a mempool-checked transfer stands: which answer it waits for.
#[derive(PartialEq, Eq, Structural, Clone, Copy, Debug)]
pub enum MempoolTransferStage {
    AwaitTraderAddress,
    AwaitChangeAddress,
    AwaitTxid,
    AwaitMempoolFee,
    AwaitBalance,
    Done,
}

/// The number of whole bitcoins that a mempool-checked transfer sends.
pub open spec fn fixed_send_btc() -> u64 {
    20
}

/// Sending a fixed 20 bitcoins from the miner to a fresh unlabelled address of the trader,
/// recording `amount_btc` as the amount sent, the fee from the mempool entry written as a
/// spending, and the miner's balance after sending as the change amount.
pub struct MempoolTransfer {
    pub amount_btc: u64,
    pub stage: MempoolTransferStage,
}

impl MempoolTransfer {
    /// Whether the transfer waits for this reply.
    pub open spec fn accepts(&self, reply: Reply) -> bool {
        match reply {
            Reply::Address(_) => self.stage == MempoolTransferStage::AwaitTraderAddress
                || self.stage == MempoolTransferStage::AwaitChangeAddress,
            Reply::Txid(_) => self.stage == MempoolTransferStage::AwaitTxid,
            Reply::MempoolFee(_) => self.stage == MempoolTransferStage::AwaitMempoolFee,
            Reply::Balance(_) => self.stage == MempoolTransferStage::AwaitBalance,
            _ => false,
        }
    }

    /// Whether the transfer waits for this reply.
    pub fn expects(&self, reply: &Reply) -> (ok: bool)
        ensures
            ok == self.accepts(*reply),
    {
        match reply {
            Reply::Address(_) => self.stage == MempoolTransferStage::AwaitTraderAddress
                || self.stage == MempoolTransferStage::AwaitChangeAddress,
            Reply::Txid(_) => self.stage == MempoolTransferStage::AwaitTxid,
            Reply::MempoolFee(_) => self.stage == MempoolTransferStage::AwaitMempoolFee,
            Reply::Balance(_) => self.stage == MempoolTransferStage::AwaitBalance,
            _ => false,
        }
    }

    /// A transfer that first asks the trader's wallet for an unlabelled address.
    pub fn start(amount_btc: u64) -> (res: (MempoolTransfer, Request))
        ensures
            res.0.amount_btc == amount_btc,
            res.0.stage == MempoolTransferStage::AwaitTraderAddress,
            res.1 == (Request::NewAddress { label: None }),
    {
        (
            MempoolTransfer { amount_btc, stage: MempoolTransferStage::AwaitTraderAddress },
            Request::NewAddress { label: None },
        )
    }

    /// Takes the node's answer, records what it tells, and says what to ask next.
    pub fn step(&mut self, data: &mut TransactionData, reply: Reply) -> (request: Request)
        requires
            old(self).accepts(reply),
        ensures
            final(self).amount_btc == old(self).amount_btc,
            match reply {
                Reply::Address(address) => if old(self).stage == MempoolTransferStage::AwaitTraderAddress {
                    &&& final(data)@ == (TransactionRecord { trader_output_address: address@, ..old(data)@ })
                    &&& final(self).stage == MempoolTransferStage::AwaitChangeAddress
                    &&& request == Request::ChangeAddress
                } else {
                    &&& final(data)@ == (TransactionRecord { miner_change_address: address@, ..old(data)@ })
                    &&& final(self).stage == MempoolTransferStage::AwaitTxid
                    &&& request == Request::Send { amount_btc: fixed_send_btc() }
                },
                Reply::Txid(txid) => {
                    &&& final(data)@ == (TransactionRecord {
                        transaction_id: txid@,
                        trader_output_amount: decimal(old(self).amount_btc as nat),
                        ..old(data)@
                    })
                    &&& final(self).stage == MempoolTransferStage::AwaitMempoolFee
                    &&& request == Request::MempoolEntry
                },
                Reply::MempoolFee(fee) => {
                    &&& final(data)@ == (TransactionRecord { transaction_fees: "-"@ + fee@, ..old(data)@ })
                    &&& final(self).stage == MempoolTransferStage::AwaitBalance
                    &&& request == Request::Balance
                },
                Reply::Balance(balance) => {
                    &&& final(data)@ == (TransactionRecord { miner_change_amount: balance@, ..old(data)@ })
                    &&& final(self).stage == MempoolTransferStage::Done
                    &&& request == Request::Finished
                },
                _ => false,
            },
    {
        match reply {
            Reply::Address(address) => {
                if self.stage == MempoolTransferStage::AwaitTraderAddress {
                    data.set_trader_output_address(address);
                    self.stage = MempoolTransferStage::AwaitChangeAddress;
                    Request::ChangeAddress
                } else {
                    data.set_miner_change_address(address);
                    self.stage = MempoolTransferStage::AwaitTxid;
                    Request::Send { amount_btc: 20 }
                }
            },
            Reply::Txid(txid) => {
                data.set_transaction_id(txid);
                data.set_trader_output_amount(decimal_string(self.amount_btc));
                self.stage = MempoolTransferStage::AwaitMempoolFee;
                Request::MempoolEntry
            },
            Reply::MempoolFee(fee) => {
                let mut fees = String::from_str("-");
                fees.append(fee.as_str());
                data.set_transaction_fees(fees);
                self.stage = MempoolTransferStage::AwaitBalance;
                Request::Balance
            },
            Reply::Balance(balance) => {
                data.set_miner_change_amount(balance);
                self.stage = MempoolTransferStage::Done;
                Request::Finished
            },
            _ => Request::Finished,
        }
    }
}

} // verus!
