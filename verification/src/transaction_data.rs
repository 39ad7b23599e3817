use vstd::prelude::*;

verus! {

/// What a `TransactionData` holds, field by field, as character sequences.
pub struct TransactionRecord {
    pub transaction_id: Seq<char>,
    pub miner_input_address: Seq<char>,
    pub miner_input_amount: Seq<char>,
    pub trader_output_address: Seq<char>,
    pub trader_output_amount: Seq<char>,
    pub miner_change_address: Seq<char>,
    pub miner_change_amount: Seq<char>,
    pub transaction_fees: Seq<char>,
    pub block_height: Seq<char>,
    pub block_hash: Seq<char>,
}

/// Number of fields in a record.
pub open spec fn field_count() -> nat {
    10
}

/// The names of the fields, in reporting order.
pub open spec fn field_name_views() -> Seq<Seq<char>> {
    seq![
        "transaction_id"@,
        "miner_input_address"@,
        "miner_input_amount"@,
        "trader_output_address"@,
        "trader_output_amount"@,
        "miner_change_address"@,
        "miner_change_amount"@,
        "transaction_fees"@,
        "block_height"@,
        "block_hash"@,
    ]
}

/// The fields written one per line, each line ended by a newline.
pub open spec fn lines(fields: Seq<Seq<char>>) -> Seq<char>
    decreases fields.len(),
{
    if fields.len() == 0 {
        Seq::empty()
    } else {
        lines(fields.drop_last()) + fields.last() + "\n"@
    }
}

/// The field of `rec` that goes by `name`, if any does.
pub open spec fn field_named(rec: TransactionRecord, name: Seq<char>) -> Option<Seq<char>> {
    if name == "transaction_id"@ {
        Some(rec.transaction_id)
    } else if name == "miner_input_address"@ {
        Some(rec.miner_input_address)
    } else if name == "miner_input_amount"@ {
        Some(rec.miner_input_amount)
    } else if name == "trader_output_address"@ {
        Some(rec.trader_output_address)
    } else if name == "trader_output_amount"@ {
        Some(rec.trader_output_amount)
    } else if name == "miner_change_address"@ {
        Some(rec.miner_change_address)
    } else if name == "miner_change_amount"@ {
        Some(rec.miner_change_amount)
    } else if name == "transaction_fees"@ {
        Some(rec.transaction_fees)
    } else if name == "block_height"@ {
        Some(rec.block_height)
    } else if name == "block_hash"@ {
        Some(rec.block_hash)
    } else {
        None
    }
}

impl TransactionRecord {
    /// The record whose every field is empty.
    pub open spec fn empty() -> TransactionRecord {
        TransactionRecord {
            transaction_id: Seq::empty(),
            miner_input_address: Seq::empty(),
            miner_input_amount: Seq::empty(),
            trader_output_address: Seq::empty(),
            trader_output_amount: Seq::empty(),
            miner_change_address: Seq::empty(),
            miner_change_amount: Seq::empty(),
            transaction_fees: Seq::empty(),
            block_height: Seq::empty(),
            block_hash: Seq::empty(),
        }
    }

    /// The fields in their reporting order.
    pub open spec fn ordered(self) -> Seq<Seq<char>> {
        seq![
            self.transaction_id,
            self.miner_input_address,
            self.miner_input_amount,
            self.trader_output_address,
            self.trader_output_amount,
            self.miner_change_address,
            self.miner_change_amount,
            self.transaction_fees,
            self.block_height,
            self.block_hash,
        ]
    }

    /// Every field holds at least one character.
    pub open spec fn complete(self) -> bool {
        &&& self.transaction_id.len() > 0
        &&& self.miner_input_address.len() > 0
        &&& self.miner_input_amount.len() > 0
        &&& self.trader_output_address.len() > 0
        &&& self.trader_output_amount.len() > 0
        &&& self.miner_change_address.len() > 0
        &&& self.miner_change_amount.len() > 0
        &&& self.transaction_fees.len() > 0
        &&& self.block_height.len() > 0
        &&& self.block_hash.len() > 0
    }
}

/// The data gathered about one transfer from the miner's wallet to the trader's.
#[derive(Debug, Clone)]
pub struct TransactionData {
    pub transaction_id: String,
    pub miner_input_address: String,
    pub miner_input_amount: String,
    pub trader_output_address: String,
    pub trader_output_amount: String,
    pub miner_change_address: String,
    pub miner_change_amount: String,
    pub transaction_fees: String,
    pub block_height: String,
    pub block_hash: String,
}

impl View for TransactionData {
    type V = TransactionRecord;

    open spec fn view(&self) -> TransactionRecord {
        TransactionRecord {
            transaction_id: self.transaction_id@,
            miner_input_address: self.miner_input_address@,
            miner_input_amount: self.miner_input_amount@,
            trader_output_address: self.trader_output_address@,
            trader_output_amount: self.trader_output_amount@,
            miner_change_address: self.miner_change_address@,
            miner_change_amount: self.miner_change_amount@,
            transaction_fees: self.transaction_fees@,
            block_height: self.block_height@,
            block_hash: self.block_hash@,
        }
    }
}

impl TransactionData {
    /// An empty record.
    pub fn new() -> (data: Self)
        ensures
            data@ == TransactionRecord::empty(),
    {
        TransactionData {
            transaction_id: String::new(),
            miner_input_address: String::new(),
            miner_input_amount: String::new(),
            trader_output_address: String::new(),
            trader_output_amount: String::new(),
            miner_change_address: String::new(),
            miner_change_amount: String::new(),
            transaction_fees: String::new(),
            block_height: String::new(),
            block_hash: String::new(),
        }
    }

    /// A record built from one value per field, in reporting order.
    pub fn with_all_fields(
        transaction_id: String,
        miner_input_address: String,
        miner_input_amount: String,
        trader_output_address: String,
        trader_output_amount: String,
        miner_change_address: String,
        miner_change_amount: String,
        transaction_fees: String,
        block_height: String,
        block_hash: String,
    ) -> (data: Self)
        ensures
            data.transaction_id@ == transaction_id@,
            data.miner_input_address@ == miner_input_address@,
            data.miner_input_amount@ == miner_input_amount@,
            data.trader_output_address@ == trader_output_address@,
            data.trader_output_amount@ == trader_output_amount@,
            data.miner_change_address@ == miner_change_address@,
            data.miner_change_amount@ == miner_change_amount@,
            data.transaction_fees@ == transaction_fees@,
            data.block_height@ == block_height@,
            data.block_hash@ == block_hash@,
    {
        TransactionData {
            transaction_id,
            miner_input_address,
            miner_input_amount,
            trader_output_address,
            trader_output_amount,
            miner_change_address,
            miner_change_amount,
            transaction_fees,
            block_height,
            block_hash,
        }
    }

    /// Replaces the id of the transfer; every other field is kept.
    pub fn set_transaction_id(&mut self, transaction_id: String)
        ensures
            final(self)@ == (TransactionRecord { transaction_id: transaction_id@, ..old(self)@ }),
            final(self)@.ordered() == old(self)@.ordered().update(0, transaction_id@),
    {
        self.transaction_id = transaction_id;
    }

    /// Replaces the miner's input address; every other field is kept.
    pub fn set_miner_input_address(&mut self, address: String)
        ensures
            final(self)@ == (TransactionRecord { miner_input_address: address@, ..old(self)@ }),
            final(self)@.ordered() == old(self)@.ordered().update(1, address@),
    {
        self.miner_input_address = address;
    }

    /// Replaces the amount the miner could spend; every other field is kept.
    pub fn set_miner_input_amount(&mut self, amount: String)
        ensures
            final(self)@ == (TransactionRecord { miner_input_amount: amount@, ..old(self)@ }),
            final(self)@.ordered() == old(self)@.ordered().update(2, amount@),
    {
        self.miner_input_amount = amount;
    }

    /// Replaces the trader's receiving address; every other field is kept.
    pub fn set_trader_output_address(&mut self, address: String)
        ensures
            final(self)@ == (TransactionRecord { trader_output_address: address@, ..old(self)@ }),
            final(self)@.ordered() == old(self)@.ordered().update(3, address@),
    {
        self.trader_output_address = address;
    }

    /// Replaces the amount sent to the trader; every other field is kept.
    pub fn set_trader_output_amount(&mut self, amount: String)
        ensures
            final(self)@ == (TransactionRecord { trader_output_amount: amount@, ..old(self)@ }),
            final(self)@.ordered() == old(self)@.ordered().update(4, amount@),
    {
        self.trader_output_amount = amount;
    }

    /// Replaces the miner's change address; every other field is kept.
    pub fn set_miner_change_address(&mut self, address: String)
        ensures
            final(self)@ == (TransactionRecord { miner_change_address: address@, ..old(self)@ }),
            final(self)@.ordered() == old(self)@.ordered().update(5, address@),
    {
        self.miner_change_address = address;
    }

    /// Replaces the amount returned as change; every other field is kept.
    pub fn set_miner_change_amount(&mut self, amount: String)
        ensures
            final(self)@ == (TransactionRecord { miner_change_amount: amount@, ..old(self)@ }),
            final(self)@.ordered() == old(self)@.ordered().update(6, amount@),
    {
        self.miner_change_amount = amount;
    }

    /// Replaces the fees paid; every other field is kept.
    pub fn set_transaction_fees(&mut self, fees: String)
        ensures
            final(self)@ == (TransactionRecord { transaction_fees: fees@, ..old(self)@ }),
            final(self)@.ordered() == old(self)@.ordered().update(7, fees@),
    {
        self.transaction_fees = fees;
    }

    /// Replaces the height of the confirming block; every other field is kept.
    pub fn set_block_height(&mut self, height: String)
        ensures
            final(self)@ == (TransactionRecord { block_height: height@, ..old(self)@ }),
            final(self)@.ordered() == old(self)@.ordered().update(8, height@),
    {
        self.block_height = height;
    }

    /// Replaces the hash of the confirming block; every other field is kept.
    pub fn set_block_hash(&mut self, hash: String)
        ensures
            final(self)@ == (TransactionRecord { block_hash: hash@, ..old(self)@ }),
            final(self)@.ordered() == old(self)@.ordered().update(9, hash@),
    {
        self.block_hash = hash;
    }

    /// The fields as strings, in reporting order.
    pub fn to_ordered_vec(&self) -> (fields: Vec<String>)
        ensures
            fields.deep_view() == self@.ordered(),
    {
        vec![
            self.transaction_id.clone(),
            self.miner_input_address.clone(),
            self.miner_input_amount.clone(),
            self.trader_output_address.clone(),
            self.trader_output_amount.clone(),
            self.miner_change_address.clone(),
            self.miner_change_amount.clone(),
            self.transaction_fees.clone(),
            self.block_height.clone(),
            self.block_hash.clone(),
        ]
    }

    /// Whether every field has been filled in.
    pub fn is_complete(&self) -> (complete: bool)
        ensures
            complete == self@.complete(),
    {
        !self.transaction_id.as_str().is_empty() &&
        !self.miner_input_address.as_str().is_empty() &&
        !self.miner_input_amount.as_str().is_empty() &&
        !self.trader_output_address.as_str().is_empty() &&
        !self.trader_output_amount.as_str().is_empty() &&
        !self.miner_change_address.as_str().is_empty() &&
        !self.miner_change_amount.as_str().is_empty() &&
        !self.transaction_fees.as_str().is_empty() &&
        !self.block_height.as_str().is_empty() &&
        !self.block_hash.as_str().is_empty()
    }

    /// The names of the fields, in the order of `to_ordered_vec`.
    pub fn field_names() -> (names: Vec<&'static str>)
        ensures
            names@.map_values(|name: &str| name@) == field_name_views(),
    {
        vec![
            "transaction_id",
            "miner_input_address",
            "miner_input_amount",
            "trader_output_address",
            "trader_output_amount",
            "miner_change_address",
            "miner_change_amount",
            "transaction_fees",
            "block_height",
            "block_hash",
        ]
    }

    /// The text of the report file: the fields in reporting order, one per line.
    pub fn report_text(&self) -> (text: String)
        ensures
            text@ == lines(self@.ordered()),
            text@ == self@.transaction_id + "\n"@ + self@.miner_input_address + "\n"@ + self@.miner_input_amount + "\n"@ + self@.trader_output_address + "\n"@ + self@.trader_output_amount + "\n"@ + self@.miner_change_address + "\n"@ + self@.miner_change_amount + "\n"@ + self@.transaction_fees + "\n"@ + self@.block_height + "\n"@ + self@.block_hash + "\n"@,
    {
        let fields = self.to_ordered_vec();
        let ghost all = self@.ordered();
        let mut text = String::new();
        for i in 0..fields.len()
            invariant
                fields.deep_view() == all,
                text@ == lines(all.take(i as int)),
        {
            assert(fields.deep_view()[i as int] == fields[i as int]@);
            text.append(fields[i].as_str());
            text.append("\n");
            assert(all.take(i + 1).drop_last() =~= all.take(i as int));
        }
        assert(all.take(fields.len() as int) =~= all);
        proof { lemma_report_spelled_out(self@); }
        text
    }
}

impl Default for TransactionData {
    /// An empty record, as `new` gives it.
    fn default() -> (data: Self)
        ensures
            data@ == TransactionRecord::empty(),
    {
        TransactionData::new()
    }
}

/// One field is written whole, followed by a newline.
pub proof fn lemma_lines_single(field: Seq<char>)
    ensures
        lines(seq![field]) == field + "\n"@,
{
    let one = seq![field];
    assert(one.drop_last() =~= Seq::<Seq<char>>::empty());
    assert(lines(one.drop_last()) == Seq::<char>::empty());
    assert(one.last() == field);
    assert(lines(one) == lines(one.drop_last()) + one.last() + "\n"@);
    assert(Seq::<char>::empty() + field + "\n"@ =~= field + "\n"@);
}

/// Writing two lists of fields one after the other is writing their concatenation.
pub proof fn lemma_lines_concat(first: Seq<Seq<char>>, second: Seq<Seq<char>>)
    ensures
        lines(first + second) == lines(first) + lines(second),
    decreases second.len(),
{
    if second.len() == 0 {
        assert(first + second =~= first);
        assert(lines(first) + Seq::<char>::empty() =~= lines(first));
    } else {
        lemma_lines_concat(first, second.drop_last());
        assert((first + second).drop_last() =~= first + second.drop_last());
        assert((first + second).last() == second.last());
        assert(lines(first) + lines(second.drop_last()) + second.last() + "\n"@
            =~= lines(first) + (lines(second.drop_last()) + second.last() + "\n"@));
    }
}

/// The report is every field, whole and in reporting order, each followed by a newline.
pub proof fn lemma_report_spelled_out(rec: TransactionRecord)
    ensures
        lines(rec.ordered()) == rec.transaction_id + "\n"@ + rec.miner_input_address + "\n"@ + rec.miner_input_amount + "\n"@ + rec.trader_output_address + "\n"@ + rec.trader_output_amount + "\n"@ + rec.miner_change_address + "\n"@ + rec.miner_change_amount + "\n"@ + rec.transaction_fees + "\n"@ + rec.block_height + "\n"@ + rec.block_hash + "\n"@,
{
    let o = rec.ordered();
    assert(o.take(1).drop_last() =~= o.take(0));
    assert(o.take(2).drop_last() =~= o.take(1));
    assert(o.take(3).drop_last() =~= o.take(2));
    assert(o.take(4).drop_last() =~= o.take(3));
    assert(o.take(5).drop_last() =~= o.take(4));
    assert(o.take(6).drop_last() =~= o.take(5));
    assert(o.take(7).drop_last() =~= o.take(6));
    assert(o.take(8).drop_last() =~= o.take(7));
    assert(o.take(9).drop_last() =~= o.take(8));
    assert(o.take(10).drop_last() =~= o.take(9));
    assert(lines(o.take(1)) == lines(o.take(0)) + o[0] + "\n"@);
    assert(lines(o.take(2)) == lines(o.take(1)) + o[1] + "\n"@);
    assert(lines(o.take(3)) == lines(o.take(2)) + o[2] + "\n"@);
    assert(lines(o.take(4)) == lines(o.take(3)) + o[3] + "\n"@);
    assert(lines(o.take(5)) == lines(o.take(4)) + o[4] + "\n"@);
    assert(lines(o.take(6)) == lines(o.take(5)) + o[5] + "\n"@);
    assert(lines(o.take(7)) == lines(o.take(6)) + o[6] + "\n"@);
    assert(lines(o.take(8)) == lines(o.take(7)) + o[7] + "\n"@);
    assert(lines(o.take(9)) == lines(o.take(8)) + o[8] + "\n"@);
    assert(lines(o.take(10)) == lines(o.take(9)) + o[9] + "\n"@);
    assert(lines(o) =~= rec.transaction_id + "\n"@ + rec.miner_input_address + "\n"@ + rec.miner_input_amount + "\n"@ + rec.trader_output_address + "\n"@ + rec.trader_output_amount + "\n"@ + rec.miner_change_address + "\n"@ + rec.miner_change_amount + "\n"@ + rec.transaction_fees + "\n"@ + rec.block_height + "\n"@ + rec.block_hash + "\n"@);
}

/// An empty record is not complete.
pub proof fn lemma_empty_is_incomplete()
    ensures
        !TransactionRecord::empty().complete(),
{
}

/// A record is complete exactly when every entry of its ordered fields is non-empty.
pub proof fn lemma_complete_iff_entries_filled(rec: TransactionRecord)
    ensures
        rec.complete() <==> forall|i: int| 0 <= i < field_count() ==> #[trigger] rec.ordered()[i].len() > 0,
{
    if forall|i: int| 0 <= i < field_count() ==> #[trigger] rec.ordered()[i].len() > 0 {
        assert(rec.ordered()[0].len() > 0);
        assert(rec.ordered()[1].len() > 0);
        assert(rec.ordered()[2].len() > 0);
        assert(rec.ordered()[3].len() > 0);
        assert(rec.ordered()[4].len() > 0);
        assert(rec.ordered()[5].len() > 0);
        assert(rec.ordered()[6].len() > 0);
        assert(rec.ordered()[7].len() > 0);
        assert(rec.ordered()[8].len() > 0);
        assert(rec.ordered()[9].len() > 0);
    }
}

/// The ordered fields and the field names line up: the entry at each position is the
/// field that the name at that position names, and there are as many of each.
pub proof fn lemma_names_match_order(rec: TransactionRecord)
    ensures
        rec.ordered().len() == field_count(),
        field_name_views().len() == field_count(),
        forall|i: int| 0 <= i < field_count() ==>
            field_named(rec, #[trigger] field_name_views()[i]) == Some(rec.ordered()[i]),
{
    reveal_strlit("transaction_id");
    reveal_strlit("miner_input_address");
    reveal_strlit("miner_input_amount");
    reveal_strlit("trader_output_address");
    reveal_strlit("trader_output_amount");
    reveal_strlit("miner_change_address");
    reveal_strlit("miner_change_amount");
    reveal_strlit("transaction_fees");
    reveal_strlit("block_height");
    reveal_strlit("block_hash");
    assert("transaction_id"@.len() == 14);
    assert("miner_input_address"@.len() == 19);
    assert("miner_input_amount"@.len() == 18);
    assert("trader_output_address"@.len() == 21);
    assert("trader_output_amount"@.len() == 20);
    assert("miner_change_address"@.len() == 20);
    assert("miner_change_amount"@.len() == 19);
    assert("transaction_fees"@.len() == 16);
    assert("block_height"@.len() == 12);
    assert("block_hash"@.len() == 10);
    assert("miner_input_address"@[6] != "miner_change_amount"@[6]);
    assert("trader_output_amount"@[0] != "miner_change_address"@[0]);
    assert forall|i: int| 0 <= i < field_count() implies
        field_named(rec, #[trigger] field_name_views()[i]) == Some(rec.ordered()[i]) by {
        assert(i == 0 || i == 1 || i == 2 || i == 3 || i == 4 || i == 5 || i == 6 || i == 7 || i == 8 || i == 9);
    }
}

/// Building a record from all its fields and then listing them gives back the fields in
/// the order they were given.
pub proof fn lemma_all_fields_in_order(data: TransactionData, values: Seq<Seq<char>>)
    requires
        values.len() == field_count(),
        data.transaction_id@ == values[0],
        data.miner_input_address@ == values[1],
        data.miner_input_amount@ == values[2],
        data.trader_output_address@ == values[3],
        data.trader_output_amount@ == values[4],
        data.miner_change_address@ == values[5],
        data.miner_change_amount@ == values[6],
        data.transaction_fees@ == values[7],
        data.block_height@ == values[8],
        data.block_hash@ == values[9],
    ensures
        data@.ordered() == values,
{
    assert(data@.ordered() =~= values);
}

} // verus!
