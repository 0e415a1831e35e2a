//! The gas aggregator: from the rows of a transaction listing to the total
//! that the account paid for gas.
//!
//! A gas price is an amount of the smallest unit of the currency for one
//! unit of gas; a transaction costs its price times the gas it used. The
//! total is kept exactly, in the smallest unit, and shown in the display
//! unit, of which one is 1 000 000 000 smallest units.

use crate::address::{address_bytes, Address};
use crate::error::PipelineError;
use crate::wide::{pow128, pow192, pow256, pow64, Uint256};
use vstd::pervasive::unreached;
use vstd::prelude::*;

verus! {

/// Smallest units in one display unit.
pub const UNITS_PER_GWEI: u32 = 1_000_000_000;

/// The order in which a listing is asked for, by block height.
#[derive(Clone, Copy, Debug, PartialEq, Eq, Structural)]
pub enum SortOrder {
    /// The lowest block first.
    Ascending,
    /// The highest block first.
    Descending,
}

/// The question put to the transaction listing service.
#[derive(Clone, Copy, Debug)]
pub struct ListingRequest {
    /// The sender, as 20 bytes.
    pub address: [u8; 20],
    /// The first block of the range.
    pub start_block: u64,
    /// The last block of the range.
    pub end_block: u64,
    /// The page asked for; 0 leaves the paging to the service.
    pub page: u64,
    /// The number of rows on a page; 0 leaves it to the service.
    pub offset: u64,
    /// The order of the rows.
    pub sort: SortOrder,
}

/// A listing request, with the sender as a sequence of bytes.
pub struct ListingModel {
    pub address: Seq<u8>,
    pub start_block: u64,
    pub end_block: u64,
    pub page: u64,
    pub offset: u64,
    pub sort: SortOrder,
}

impl View for ListingRequest {
    type V = ListingModel;

    open spec fn view(&self) -> ListingModel {
        ListingModel {
            address: self.address@,
            start_block: self.start_block,
            end_block: self.end_block,
            page: self.page,
            offset: self.offset,
            sort: self.sort,
        }
    }
}

/// The one question that a run puts to the listing service: every
/// transaction that the address sent in the blocks from `start_block` to
/// `end_block`, in one piece, the lowest block first.
pub open spec fn listing_for(address: Seq<char>, start_block: u64, end_block: u64) -> ListingModel {
    ListingModel {
        address: address_bytes(address),
        start_block,
        end_block,
        page: 0,
        offset: 0,
        sort: SortOrder::Ascending,
    }
}

/// The question put to the listing service for an address and a range of
/// blocks.
pub fn listing_request(address: &Address, start_block: u64, end_block: u64) -> (request:
    ListingRequest)
    ensures
        request@ == listing_for(address.text(), start_block, end_block),
{
    ListingRequest {
        address: address.bytes(),
        start_block,
        end_block,
        page: 0,
        offset: 0,
        sort: SortOrder::Ascending,
    }
}

/// One row of the listing, as the service sends it: the price may be
/// missing, and both numbers are 256 bits wide.
#[derive(Clone, Copy, Debug)]
pub struct RawTransaction {
    /// Price of one unit of gas, in the smallest unit.
    pub gas_price: Option<Uint256>,
    /// Units of gas that the transaction used.
    pub gas_used: Uint256,
}

/// One transaction sent by the account.
#[derive(Clone, Copy, Debug, PartialEq, Eq, Structural)]
pub struct TransactionRecord {
    /// Price of one unit of gas, in the smallest unit.
    pub gas_price: u128,
    /// Units of gas that the transaction used.
    pub gas_used: u64,
}

/// Whether a row can be read: it has a price, the price fits 128 bits and
/// the gas count fits 64 bits.
pub open spec fn row_readable(row: RawTransaction) -> bool {
    &&& row.gas_price is Some
    &&& row.gas_price->0@ <= u128::MAX
    &&& row.gas_used@ <= u64::MAX
}

/// The record that a readable row stands for.
pub open spec fn row_record(row: RawTransaction) -> TransactionRecord {
    TransactionRecord {
        gas_price: row.gas_price->0@ as u128,
        gas_used: row.gas_used@ as u64,
    }
}

/// Whether every row of a listing can be read.
pub open spec fn rows_readable(rows: Seq<RawTransaction>) -> bool {
    forall|i: int| 0 <= i < rows.len() ==> row_readable(#[trigger] rows[i])
}

/// The records of a listing, in its order.
pub open spec fn rows_records(rows: Seq<RawTransaction>) -> Seq<TransactionRecord> {
    Seq::new(rows.len(), |i: int| row_record(rows[i]))
}

/// What one transaction cost, in the smallest unit: its own price times
/// its own gas count.
pub open spec fn cost(record: TransactionRecord) -> nat {
    (record.gas_price as nat) * (record.gas_used as nat)
}

/// What the transactions cost together, in the smallest unit.
pub open spec fn total_cost(records: Seq<TransactionRecord>) -> nat
    decreases records.len(),
{
    if records.len() == 0 {
        0
    } else {
        total_cost(records.drop_last()) + cost(records.last())
    }
}

/// One transaction costs less than 2^192.
pub proof fn lemma_cost_bound(record: TransactionRecord)
    ensures
        cost(record) < pow192(),
{
    assert((record.gas_price as nat) * (record.gas_used as nat) < pow128() * pow64())
        by (nonlinear_arith)
        requires
            record.gas_price < pow128(),
            record.gas_used < pow64(),
            pow128() > 0,
            pow64() > 0,
    ;
}

/// The transactions of a listing cost at most 2^192 each.
pub proof fn lemma_total_cost_bound(records: Seq<TransactionRecord>)
    ensures
        total_cost(records) <= records.len() * pow192(),
    decreases records.len(),
{
    if records.len() > 0 {
        lemma_total_cost_bound(records.drop_last());
        lemma_cost_bound(records.last());
    }
}

/// The total does not depend on how the listing is cut in two.
pub proof fn lemma_total_cost_concat(
    front: Seq<TransactionRecord>,
    back: Seq<TransactionRecord>,
)
    ensures
        total_cost(front + back) == total_cost(front) + total_cost(back),
    decreases back.len(),
{
    if back.len() == 0 {
        assert(front + back =~= front);
    } else {
        assert((front + back).drop_last() =~= front + back.drop_last());
        lemma_total_cost_concat(front, back.drop_last());
    }
}

/// The total that an account paid for gas, in the smallest unit.
#[derive(Clone, Copy, Debug, PartialEq, Eq, Structural)]
pub struct GasReport {
    /// The total, in the smallest unit.
    pub total: Uint256,
}

impl View for GasReport {
    type V = nat;

    open spec fn view(&self) -> nat {
        self.total@
    }
}

impl GasReport {
    /// Whether nothing was paid.
    pub fn is_zero(&self) -> (zero: bool)
        ensures
            zero == (self@ == 0),
    {
        self.total.w0 == 0 && self.total.w1 == 0 && self.total.w2 == 0 && self.total.w3 == 0
    }

    /// The total in the display unit: the whole display units, and the
    /// smallest units that are left over.
    pub fn gwei_parts(&self) -> (parts: (Uint256, u32))
        ensures
            parts.0@ == self@ / 1_000_000_000,
            parts.1 == self@ % 1_000_000_000,
    {
        match self.total.checked_div_rem(UNITS_PER_GWEI) {
            Some(parts) => parts,
            None => unreached(),
        }
    }
}

impl TransactionRecord {
    /// Reads one row of the listing, where it can be read.
    pub fn from_raw(row: &RawTransaction) -> (record: Option<TransactionRecord>)
        ensures
            row_readable(*row) ==> record == Some(row_record(*row)),
            !row_readable(*row) ==> record is None,
    {
        let price = match row.gas_price {
            Some(wide) => wide.to_u128(),
            None => None,
        };
        match (price, row.gas_used.to_u64()) {
            (Some(gas_price), Some(gas_used)) => Some(TransactionRecord { gas_price, gas_used }),
            _ => None,
        }
    }
}

/// Reads the rows of a listing. One row that cannot be read spoils the
/// listing.
pub fn records_from_rows(rows: &Vec<RawTransaction>) -> (records: Result<
    Vec<TransactionRecord>,
    PipelineError,
>)
    ensures
        rows_readable(rows@) ==> records is Ok && records->Ok_0@ == rows_records(rows@),
        !rows_readable(rows@) ==> records == Err::<Vec<TransactionRecord>, PipelineError>(
            PipelineError::TransactionFetchFailed,
        ),
{
    let mut records: Vec<TransactionRecord> = Vec::new();
    let mut i: usize = 0;
    while i < rows.len()
        invariant
            i <= rows.len(),
            rows_readable(rows@.take(i as int)),
            records@ == rows_records(rows@.take(i as int)),
        decreases rows.len() - i,
    {
        match TransactionRecord::from_raw(&rows[i]) {
            Some(record) => {
                records.push(record);
            },
            None => {
                return Err(PipelineError::TransactionFetchFailed);
            },
        }
        i += 1;
        proof {
            assert forall|k: int| 0 <= k < i implies row_readable(
                #[trigger] rows@.take(i as int)[k],
            ) by {
                if k < i - 1 {
                    assert(rows@.take(i as int)[k] == rows@.take(i - 1)[k]);
                }
            }
            assert(records@ =~= rows_records(rows@.take(i as int)));
        }
    }
    proof {
        assert(rows@.take(rows.len() as int) =~= rows@);
    }
    Ok(records)
}

/// Adds up what the transactions cost, each by its own price and its own
/// gas count.
pub fn aggregate(records: &Vec<TransactionRecord>) -> (report: GasReport)
    ensures
        report@ == total_cost(records@),
        records@.len() == 0 ==> report@ == 0,
{
    let mut total = Uint256::zero();
    let mut i: usize = 0;
    while i < records.len()
        invariant
            i <= records.len(),
            total@ == total_cost(records@.take(i as int)),
        decreases records.len() - i,
    {
        let spent = Uint256::product(records[i].gas_price, records[i].gas_used);
        proof {
            let done = records@.take(i + 1);
            assert(done.drop_last() =~= records@.take(i as int));
            assert(done.last() == records@[i as int]);
            lemma_total_cost_bound(done);
            assert(done.len() * pow192() < pow256()) by (nonlinear_arith)
                requires
                    done.len() < pow64(),
                    pow192() * pow64() == pow256(),
                    pow192() > 0,
            ;
        }
        total = match total.checked_add(&spent) {
            Some(sum) => sum,
            None => unreached(),
        };
        i += 1;
    }
    proof {
        assert(records@.take(records.len() as int) =~= records@);
    }
    GasReport { total }
}

/// The gas report of a listing: the total over its rows where every row
/// can be read, and a failed fetch where one cannot.
pub fn fetch_gas(rows: &Vec<RawTransaction>) -> (report: Result<GasReport, PipelineError>)
    ensures
        rows_readable(rows@) ==> report is Ok && report->Ok_0@ == total_cost(rows_records(rows@)),
        !rows_readable(rows@) ==> report == Err::<GasReport, PipelineError>(
            PipelineError::TransactionFetchFailed,
        ),
        rows@.len() == 0 ==> report is Ok && report->Ok_0@ == 0,
{
    match records_from_rows(rows) {
        Ok(records) => Ok(aggregate(&records)),
        Err(error) => Err(error),
    }
}

} // verus!
