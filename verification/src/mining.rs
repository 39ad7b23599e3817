use vstd::prelude::*;
use crate::address::{accepted_on_regtest, is_regtest_address};
use crate::node::{Reply, Request};
use crate::text::{decimal, decimal_string};
use crate::transaction_data::{TransactionData, TransactionRecord};

verus! {

/// Where a round of mining stands: which answer it waits for.
#[derive(PartialEq, Eq, Structural, Clone, Copy, Debug)]
pub enum MiningStage {
    AwaitAddress,
    AwaitBlocks,
    AwaitHeight,
    AwaitBalance,
    Done,
}

/// The label under which the mining address is requested.
pub open spec fn mining_label() -> Seq<char> {
    "Mining Reward"@
}

/// The record after a mining address is obtained: the first one becomes the miner's
/// input address, a later one the change address.
pub open spec fn with_mining_address(rec: TransactionRecord, address: Seq<char>) -> TransactionRecord {
    if rec.miner_input_address.len() == 0 {
        TransactionRecord { miner_input_address: address, ..rec }
    } else {
        TransactionRecord { miner_change_address: address, ..rec }
    }
}

/// The record after a mining address is obtained, where only a first one is kept.
pub open spec fn with_first_mining_address(rec: TransactionRecord, address: Seq<char>) -> TransactionRecord {
    if rec.miner_input_address.len() == 0 {
        TransactionRecord { miner_input_address: address, ..rec }
    } else {
        rec
    }
}

/// The record after the balance is read: it becomes the input amount if none is known yet.
pub open spec fn with_balance(rec: TransactionRecord, balance: Seq<char>) -> TransactionRecord {
    if rec.miner_input_amount.len() == 0 {
        TransactionRecord { miner_input_amount: balance, ..rec }
    } else {
        rec
    }
}

/// Which reply a stage waits for.
pub open spec fn stage_accepts(stage: MiningStage, reply: Reply) -> bool {
    match reply {
        Reply::Address(_) => stage == MiningStage::AwaitAddress,
        Reply::Blocks(_) => stage == MiningStage::AwaitBlocks,
        Reply::Height(_) => stage == MiningStage::AwaitHeight,
        Reply::Balance(_) => stage == MiningStage::AwaitBalance,
        _ => false,
    }
}

/// What the blocks, height and balance answers do, the same in both kinds of round.
pub open spec fn after_generation(
    rec: TransactionRecord,
    reply: Reply,
    new_rec: TransactionRecord,
    stage: MiningStage,
    request: Request,
) -> bool {
    match reply {
        Reply::Blocks(hashes) => if hashes.len() == 1 {
            &&& new_rec == (TransactionRecord { block_hash: hashes[0]@, ..rec })
            &&& stage == MiningStage::AwaitHeight
            &&& request == Request::BlockCount
        } else {
            &&& new_rec == rec
            &&& stage == MiningStage::AwaitBalance
            &&& request == Request::Balance
        },
        Reply::Height(height) => {
            &&& new_rec == (TransactionRecord { block_height: decimal(height as nat), ..rec })
            &&& stage == MiningStage::AwaitBalance
            &&& request == Request::Balance
        },
        Reply::Balance(balance) => {
            &&& new_rec == with_balance(rec, balance@)
            &&& stage == MiningStage::Done
            &&& request == Request::Finished
        },
        _ => false,
    }
}

/// Once the miner's input address and input amount are known, no answer of a mining round
/// replaces them: a later address is recorded as change (or dropped), and a later balance
/// is dropped.
pub proof fn lemma_mining_keeps_input(
    rec: TransactionRecord,
    address: Seq<char>,
    reply: Reply,
    new_rec: TransactionRecord,
    stage: MiningStage,
    request: Request,
)
    requires
        rec.miner_input_address.len() > 0,
        rec.miner_input_amount.len() > 0,
    ensures
        with_mining_address(rec, address) == (TransactionRecord { miner_change_address: address, ..rec }),
        with_first_mining_address(rec, address) == rec,
        after_generation(rec, reply, new_rec, stage, request) ==> {
            &&& new_rec.miner_input_address == rec.miner_input_address
            &&& new_rec.miner_input_amount == rec.miner_input_amount
        },
{
}

/// A round that mines exactly one block records that block's hash, then the node's block
/// count as the height; a round that mines any other number records neither.
pub proof fn lemma_single_block_is_recorded(
    rec: TransactionRecord,
    hashes: Vec<String>,
    new_rec: TransactionRecord,
    stage: MiningStage,
    request: Request,
)
    requires
        after_generation(rec, Reply::Blocks(hashes), new_rec, stage, request),
    ensures
        hashes.len() == 1 ==> new_rec.block_hash == hashes[0]@ && request == Request::BlockCount,
        hashes.len() != 1 ==> new_rec == rec && request == Request::Balance,
{
}

fn stage_expects(stage: MiningStage, reply: &Reply) -> (ok: bool)
    ensures
        ok == stage_accepts(stage, *reply),
{
    match reply {
        Reply::Address(_) => stage == MiningStage::AwaitAddress,
        Reply::Blocks(_) => stage == MiningStage::AwaitBlocks,
        Reply::Height(_) => stage == MiningStage::AwaitHeight,
        Reply::Balance(_) => stage == MiningStage::AwaitBalance,
        _ => false,
    }
}

/// Handles the answers that follow block generation.
fn handle_generation(data: &mut TransactionData, reply: Reply) -> (res: (MiningStage, Request))
    requires
        reply is Blocks || reply is Height || reply is Balance,
    ensures
        after_generation(old(data)@, reply, final(data)@, res.0, res.1),
{
    match reply {
        Reply::Blocks(hashes) => {
            if hashes.len() == 1 {
                let hash = hashes[0].clone();
                data.set_block_hash(hash);
                (MiningStage::AwaitHeight, Request::BlockCount)
            } else {
                (MiningStage::AwaitBalance, Request::Balance)
            }
        },
        Reply::Height(height) => {
            data.set_block_height(decimal_string(height));
            (MiningStage::AwaitBalance, Request::Balance)
        },
        Reply::Balance(balance) => {
            if data.miner_input_amount.as_str().is_empty() {
                data.set_miner_input_amount(balance);
            }
            (MiningStage::Done, Request::Finished)
        },
        _ => (MiningStage::Done, Request::Finished),
    }
}

/// Mining `blocks` blocks to a fresh address labelled "Mining Reward", recording the
/// address, the confirming block when a single block is mined, and the first balance.
pub struct MiningRound {
    pub blocks: u64,
    pub stage: MiningStage,
}

impl MiningRound {
    /// Whether the round waits for this reply.
    pub open spec fn accepts(&self, reply: Reply) -> bool {
        stage_accepts(self.stage, reply)
    }

    /// Whether the round waits for this reply.
    pub fn expects(&self, reply: &Reply) -> (ok: bool)
        ensures
            ok == self.accepts(*reply),
    {
        stage_expects(self.stage, reply)
    }

    /// A round that first asks for a labelled address.
    pub fn start(blocks: u64) -> (res: (MiningRound, Request))
        ensures
            res.0.blocks == blocks,
            res.0.stage == MiningStage::AwaitAddress,
            res.1 matches Request::NewAddress { label: Some(label) } && label@ == mining_label(),
    {
        let label = String::from_str("Mining Reward");
        proof { reveal_strlit("Mining Reward"); }
        (MiningRound { blocks, stage: MiningStage::AwaitAddress }, Request::NewAddress { label: Some(label) })
    }

    /// Takes the node's answer, records what it tells, and says what to ask next.
    pub fn step(&mut self, data: &mut TransactionData, reply: Reply) -> (request: Request)
        requires
            old(self).accepts(reply),
        ensures
            final(self).blocks == old(self).blocks,
            match reply {
                Reply::Address(address) => {
                    &&& final(data)@ == with_mining_address(old(data)@, address@)
                    &&& final(self).stage == MiningStage::AwaitBlocks
                    &&& request == Request::GenerateBlocks { count: old(self).blocks }
                },
                _ => after_generation(old(data)@, reply, final(data)@, final(self).stage, request),
            },
    {
        match reply {
            Reply::Address(address) => {
                if data.miner_input_address.as_str().is_empty() {
                    data.set_miner_input_address(address);
                } else {
                    data.set_miner_change_address(address);
                }
                self.stage = MiningStage::AwaitBlocks;
                Request::GenerateBlocks { count: self.blocks }
            },
            _ => {
                let (stage, request) = handle_generation(data, reply);
                self.stage = stage;
                request
            },
        }
    }
}

/// Mining `blocks` blocks to a fresh unlabelled address, only when the node gave an
/// address valid on regtest; the first address and the first balance are recorded, and
/// the confirming block when a single block is mined.
pub struct CheckedMiningRound {
    pub blocks: u64,
    pub stage: MiningStage,
}

impl CheckedMiningRound {
    /// Whether the round waits for this reply.
    pub open spec fn accepts(&self, reply: Reply) -> bool {
        stage_accepts(self.stage, reply)
    }

    /// Whether the round waits for this reply.
    pub fn expects(&self, reply: &Reply) -> (ok: bool)
        ensures
            ok == self.accepts(*reply),
    {
        stage_expects(self.stage, reply)
    }

    /// A round that first asks for an unlabelled address.
    pub fn start(blocks: u64) -> (res: (CheckedMiningRound, Request))
        ensures
            res.0.blocks == blocks,
            res.0.stage == MiningStage::AwaitAddress,
            res.1 == (Request::NewAddress { label: None }),
    {
        (CheckedMiningRound { blocks, stage: MiningStage::AwaitAddress }, Request::NewAddress { label: None })
    }

    /// Takes the node's answer, records what it tells, and says what to ask next; blocks
    /// are generated only to an address that regtest accepts.
    pub fn step(&mut self, data: &mut TransactionData, reply: Reply) -> (request: Request)
        requires
            old(self).accepts(reply),
        ensures
            final(self).blocks == old(self).blocks,
            match reply {
                Reply::Address(address) => {
                    &&& final(data)@ == with_first_mining_address(old(data)@, address@)
                    &&& if is_regtest_address(address@) {
                        &&& final(self).stage == MiningStage::AwaitBlocks
                        &&& request == Request::GenerateBlocks { count: old(self).blocks }
                    } else {
                        &&& final(self).stage == MiningStage::AwaitBalance
                        &&& request == Request::Balance
                    }
                },
                _ => after_generation(old(data)@, reply, final(data)@, final(self).stage, request),
            },
    {
        match reply {
            Reply::Address(address) => {
                let accepted = accepted_on_regtest(address.as_str());
                if data.miner_input_address.as_str().is_empty() {
                    data.set_miner_input_address(address);
                }
                if accepted {
                    self.stage = MiningStage::AwaitBlocks;
                    Request::GenerateBlocks { count: self.blocks }
                } else {
                    self.stage = MiningStage::AwaitBalance;
                    Request::Balance
                }
            },
            _ => {
                let (stage, request) = handle_generation(data, reply);
                self.stage = stage;
                request
            },
        }
    }
}

} // verus!
