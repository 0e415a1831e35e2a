//! The orchestrator: the run as a state machine.
//!
//! A run goes through its stages in one direction: the dates are read, the
//! identifier is resolved, the two block heights are looked up, the
//! transactions are listed and added up, and the total is reported. The
//! machine itself asks no service. It says what is to be asked next, as an
//! [`Action`], and is told the answer, as an [`Event`]. The first failure
//! ends the run.

use crate::account::{Account, DateRange};
use crate::address::{
    address_text, classification, classify_address, well_formed_address, Address, Identifier,
    IdentifierKind,
};
use crate::calendar::{
    date_of_text, date_text_valid, get_blocks, sent_timestamp, unix_seconds, BlockQuery, Closest,
    DateModel, UtcOffset,
};
use crate::error::{ErrorClass, PipelineError};
use crate::gas::{
    fetch_gas, listing_for, listing_request, rows_readable, rows_records, total_cost, GasReport,
    ListingModel, ListingRequest, RawTransaction,
};
use crate::wide::lemma_value_fixes_limbs;
use vstd::prelude::*;

verus! {

/// What a service answered. `None` stands for a service that failed or
/// found nothing.
#[derive(Debug)]
pub enum Event {
    /// The name service resolved the name to 20 bytes, or did not.
    AliasResolved(Option<[u8; 20]>),
    /// The block index found the height of a block, or did not.
    BlockFound(Option<u64>),
    /// The listing service sent its rows, or did not.
    TransactionsListed(Option<Vec<RawTransaction>>),
}

/// An [`Event`] over sequences.
pub enum EventModel {
    AliasResolved(Option<Seq<u8>>),
    BlockFound(Option<u64>),
    TransactionsListed(Option<Seq<RawTransaction>>),
}

impl View for Event {
    type V = EventModel;

    open spec fn view(&self) -> EventModel {
        match self {
            Event::AliasResolved(Some(bytes)) => EventModel::AliasResolved(Some(bytes@)),
            Event::AliasResolved(None) => EventModel::AliasResolved(None),
            Event::BlockFound(height) => EventModel::BlockFound(*height),
            Event::TransactionsListed(Some(rows)) => EventModel::TransactionsListed(Some(rows@)),
            Event::TransactionsListed(None) => EventModel::TransactionsListed(None),
        }
    }
}

/// What is to be done next.
#[derive(Debug)]
pub enum Action {
    /// Ask the name service for the address of the name.
    ResolveAlias(String),
    /// Ask the block index.
    LookupBlock(BlockQuery),
    /// Ask the listing service.
    ListTransactions(ListingRequest),
    /// The run has ended well: report the total.
    Report(GasReport),
    /// The run has failed: report the failure.
    Abort(PipelineError),
}

/// An [`Action`] over sequences and numbers.
pub enum ActionModel {
    ResolveAlias(Seq<char>),
    LookupBlock(BlockQuery),
    ListTransactions(ListingModel),
    Report(nat),
    Abort(PipelineError),
}

impl View for Action {
    type V = ActionModel;

    open spec fn view(&self) -> ActionModel {
        match self {
            Action::ResolveAlias(name) => ActionModel::ResolveAlias(name@),
            Action::LookupBlock(query) => ActionModel::LookupBlock(*query),
            Action::ListTransactions(request) => ActionModel::ListTransactions(request@),
            Action::Report(report) => ActionModel::Report(report@),
            Action::Abort(error) => ActionModel::Abort(*error),
        }
    }
}

impl ActionModel {
    /// Whether the action ends the run.
    pub open spec fn is_final(self) -> bool {
        self is Report || self is Abort
    }
}

impl Action {
    /// The exit status with which the run ends, where the action ends it: 0
    /// with a report, 1 with a failure.
    pub fn exit_status(&self) -> (status: Option<u8>)
        ensures
            self@ is Report ==> status == Some(0u8),
            self@ is Abort ==> status == Some(1u8),
            !self@.is_final() ==> status is None,
    {
        match self {
            Action::Report(_) => Some(0),
            Action::Abort(_) => Some(1),
            _ => None,
        }
    }
}

/// Where a run stands.
#[derive(Debug)]
pub enum State {
    /// The dates are read; the name is being resolved.
    ResolveIdentifier { dates: DateRange, offset: UtcOffset },
    /// The address is known; a block height is being looked up, that of
    /// the start date where `found_start` is `None`, else that of the end
    /// date.
    ResolveBlocks {
        address: Address,
        dates: DateRange,
        offset: UtcOffset,
        found_start: Option<u64>,
    },
    /// Both heights are known; the transactions are being listed.
    Aggregate { address: Address, start_block: u64, end_block: u64 },
    /// The run has ended with a report.
    Report { report: GasReport },
    /// The run has ended with a failure.
    Failed { error: PipelineError },
}

/// A [`State`] over sequences and numbers.
pub enum StateModel {
    ResolveIdentifier { start: DateModel, end: DateModel, offset: int },
    ResolveBlocks {
        address: Seq<char>,
        start: DateModel,
        end: DateModel,
        offset: int,
        found_start: Option<u64>,
    },
    Aggregate { address: Seq<char>, start_block: u64, end_block: u64 },
    Report { total: nat },
    Failed { error: PipelineError },
}

impl View for State {
    type V = StateModel;

    open spec fn view(&self) -> StateModel {
        match self {
            State::ResolveIdentifier { dates, offset } => StateModel::ResolveIdentifier {
                start: dates.start@,
                end: dates.end@,
                offset: offset@,
            },
            State::ResolveBlocks { address, dates, offset, found_start } => {
                StateModel::ResolveBlocks {
                    address: address.text(),
                    start: dates.start@,
                    end: dates.end@,
                    offset: offset@,
                    found_start: *found_start,
                }
            },
            State::Aggregate { address, start_block, end_block } => StateModel::Aggregate {
                address: address.text(),
                start_block: *start_block,
                end_block: *end_block,
            },
            State::Report { report } => StateModel::Report { total: report@ },
            State::Failed { error } => StateModel::Failed { error: *error },
        }
    }
}

impl StateModel {
    /// Whether the run has ended.
    pub open spec fn is_final(self) -> bool {
        self is Report || self is Failed
    }

    /// How far the run has come: each answer that the machine takes in
    /// moves it to a higher rank, and the two last states have the highest.
    pub open spec fn rank(self) -> nat {
        match self {
            StateModel::ResolveIdentifier { .. } => 0,
            StateModel::ResolveBlocks { found_start, .. } => if found_start is None {
                1
            } else {
                2
            },
            StateModel::Aggregate { .. } => 3,
            StateModel::Report { .. } => 4,
            StateModel::Failed { .. } => 4,
        }
    }
}

/// The question for the first block at or after the midnight with which
/// the day begins on a clock `offset` seconds east of UTC.
pub open spec fn query_for(date: DateModel, offset: int) -> BlockQuery {
    BlockQuery {
        timestamp: sent_timestamp(unix_seconds(offset, date.year, date.month, date.day, 0, 0, 0))
            as u64,
        closest: Closest::After,
    }
}

/// The end of a run in a failure.
pub open spec fn failure(error: PipelineError) -> (StateModel, ActionModel) {
    (StateModel::Failed { error }, ActionModel::Abort(error))
}

/// How a run begins. The dates are read first, and a date that cannot be
/// read ends the run before the identifier is looked at. A well-formed
/// address then goes on to its first block height, and a name to the name
/// service.
pub open spec fn begin_model(
    identifier: Seq<char>,
    start_date: Seq<char>,
    end_date: Seq<char>,
    offset: int,
) -> (StateModel, ActionModel) {
    if !(date_text_valid(start_date) && date_text_valid(end_date)) {
        failure(PipelineError::InvalidDateFormat)
    } else {
        let start = date_of_text(start_date);
        let end = date_of_text(end_date);
        match classification(identifier) {
            Err(error) => failure(error),
            Ok(IdentifierKind::Alias) => (
                StateModel::ResolveIdentifier { start, end, offset },
                ActionModel::ResolveAlias(identifier),
            ),
            Ok(IdentifierKind::RawAddress) => (
                StateModel::ResolveBlocks {
                    address: identifier,
                    start,
                    end,
                    offset,
                    found_start: None,
                },
                ActionModel::LookupBlock(query_for(start, offset)),
            ),
        }
    }
}

/// How a run goes on when it is told an answer. An answer that is not the
/// one the state waits for, or that tells of a failure, ends the run with
/// the failure of that state. A run that has ended stays as it is.
pub open spec fn step_model(state: StateModel, event: EventModel) -> (StateModel, ActionModel) {
    match state {
        StateModel::ResolveIdentifier { start, end, offset } => match event {
            EventModel::AliasResolved(Some(bytes)) => (
                StateModel::ResolveBlocks {
                    address: address_text(bytes),
                    start,
                    end,
                    offset,
                    found_start: None,
                },
                ActionModel::LookupBlock(query_for(start, offset)),
            ),
            _ => failure(PipelineError::AliasResolutionFailed),
        },
        StateModel::ResolveBlocks { address, start, end, offset, found_start } => match event {
            EventModel::BlockFound(Some(height)) => match found_start {
                None => (
                    StateModel::ResolveBlocks {
                        address,
                        start,
                        end,
                        offset,
                        found_start: Some(height),
                    },
                    ActionModel::LookupBlock(query_for(end, offset)),
                ),
                Some(first) => (
                    StateModel::Aggregate { address, start_block: first, end_block: height },
                    ActionModel::ListTransactions(listing_for(address, first, height)),
                ),
            },
            _ => failure(PipelineError::BlockLookupFailed),
        },
        StateModel::Aggregate { address, start_block, end_block } => match event {
            EventModel::TransactionsListed(Some(rows)) => if rows_readable(rows) {
                (
                    StateModel::Report { total: total_cost(rows_records(rows)) },
                    ActionModel::Report(total_cost(rows_records(rows))),
                )
            } else {
                failure(PipelineError::TransactionFetchFailed)
            },
            EventModel::TransactionsListed(None) => if start_block > end_block {
                failure(PipelineError::RangeQueryFailed)
            } else {
                failure(PipelineError::TransactionFetchFailed)
            },
            _ => failure(PipelineError::TransactionFetchFailed),
        },
        StateModel::Report { total } => (state, ActionModel::Report(total)),
        StateModel::Failed { error } => (state, ActionModel::Abort(error)),
    }
}

/// Ends a run in a failure.
fn fail(error: PipelineError) -> (next: (State, Action))
    ensures
        (next.0@, next.1@) == failure(error),
{
    (State::Failed { error }, Action::Abort(error))
}

/// Begins a run: reads the dates, tells what the identifier is, and says
/// what is to be asked first.
pub fn begin(account: Account, offset: UtcOffset) -> (next: (State, Action))
    ensures
        (next.0@, next.1@) == begin_model(
            account.address_or_name@,
            account.start_date@,
            account.end_date@,
            offset@,
        ),
{
    let dates = match account.validate_date() {
        Ok(dates) => dates,
        Err(error) => {
            return fail(error);
        },
    };
    match classify_address(account.address_or_name) {
        Err(error) => fail(error),
        Ok(Identifier::Alias(name)) => (
            State::ResolveIdentifier { dates, offset },
            Action::ResolveAlias(name),
        ),
        Ok(Identifier::RawAddress(address)) => {
            let query = get_blocks(&dates.start, &offset);
            (
                State::ResolveBlocks { address, dates, offset, found_start: None },
                Action::LookupBlock(query),
            )
        },
    }
}

/// Takes in an answer, and says where the run stands then and what is to
/// be done next.
pub fn advance(state: State, event: Event) -> (next: (State, Action))
    ensures
        (next.0@, next.1@) == step_model(state@, event@),
{
    match state {
        State::ResolveIdentifier { dates, offset } => match event {
            Event::AliasResolved(Some(bytes)) => {
                let query = get_blocks(&dates.start, &offset);
                (
                    State::ResolveBlocks {
                        address: Address::from_bytes(bytes),
                        dates,
                        offset,
                        found_start: None,
                    },
                    Action::LookupBlock(query),
                )
            },
            _ => fail(PipelineError::AliasResolutionFailed),
        },
        State::ResolveBlocks { address, dates, offset, found_start } => match event {
            Event::BlockFound(Some(height)) => match found_start {
                None => {
                    let query = get_blocks(&dates.end, &offset);
                    (
                        State::ResolveBlocks { address, dates, offset, found_start: Some(height) },
                        Action::LookupBlock(query),
                    )
                },
                Some(first) => {
                    let request = listing_request(&address, first, height);
                    (
                        State::Aggregate { address, start_block: first, end_block: height },
                        Action::ListTransactions(request),
                    )
                },
            },
            _ => fail(PipelineError::BlockLookupFailed),
        },
        State::Aggregate { address, start_block, end_block } => match event {
            Event::TransactionsListed(Some(rows)) => match fetch_gas(&rows) {
                Ok(report) => (State::Report { report }, Action::Report(report)),
                Err(error) => fail(error),
            },
            Event::TransactionsListed(None) => if start_block > end_block {
                fail(PipelineError::RangeQueryFailed)
            } else {
                fail(PipelineError::TransactionFetchFailed)
            },
            _ => fail(PipelineError::TransactionFetchFailed),
        },
        State::Report { report } => (State::Report { report }, Action::Report(report)),
        State::Failed { error } => (State::Failed { error }, Action::Abort(error)),
    }
}

/// What the services hold: for each question, the answer that is given to
/// it as long as nothing changes.
pub struct Dataset {
    pub names: spec_fn(Seq<char>) -> Option<Seq<u8>>,
    pub blocks: spec_fn(BlockQuery) -> Option<u64>,
    pub listings: spec_fn(ListingModel) -> Option<Seq<RawTransaction>>,
}

impl Dataset {
    /// The answer to the question that an action puts.
    pub open spec fn answer(self, action: ActionModel) -> EventModel {
        match action {
            ActionModel::ResolveAlias(name) => EventModel::AliasResolved((self.names)(name)),
            ActionModel::LookupBlock(query) => EventModel::BlockFound((self.blocks)(query)),
            ActionModel::ListTransactions(request) => EventModel::TransactionsListed(
                (self.listings)(request),
            ),
            _ => EventModel::BlockFound(None),
        }
    }

    /// One turn of a run: the action is carried out and its answer is taken
    /// in. A run that has ended stays as it is.
    pub open spec fn turn(self, at: (StateModel, ActionModel)) -> (StateModel, ActionModel) {
        if at.1.is_final() {
            at
        } else {
            step_model(at.0, self.answer(at.1))
        }
    }

    /// How a run on these services ends: four questions at most are put.
    pub open spec fn outcome(
        self,
        identifier: Seq<char>,
        start_date: Seq<char>,
        end_date: Seq<char>,
        offset: int,
    ) -> ActionModel {
        self.turn(
            self.turn(self.turn(self.turn(begin_model(identifier, start_date, end_date, offset)))),
        ).1
    }
}

/// A date that cannot be read ends the run at once, with a failure of the
/// input's form, and no service is asked.
pub proof fn lemma_bad_date_ends_run(
    identifier: Seq<char>,
    start_date: Seq<char>,
    end_date: Seq<char>,
    offset: int,
)
    requires
        !date_text_valid(start_date) || !date_text_valid(end_date),
    ensures
        begin_model(identifier, start_date, end_date, offset) == failure(
            PipelineError::InvalidDateFormat,
        ),
        PipelineError::InvalidDateFormat.spec_class() == ErrorClass::InputFormat,
{
}

/// A run that has failed stays failed, whatever it is told.
pub proof fn lemma_failure_is_final(error: PipelineError, event: EventModel)
    ensures
        step_model(StateModel::Failed { error }, event) == failure(error),
{
}

/// A run that has reported stays as it is, whatever it is told.
pub proof fn lemma_report_is_final(total: nat, event: EventModel)
    ensures
        step_model(StateModel::Report { total }, event) == (
            StateModel::Report { total },
            ActionModel::Report(total),
        ),
{
}

/// The state has ended exactly when the action that comes with it ends the
/// run, and a failed state comes with its own failure.
pub open spec fn in_step(at: (StateModel, ActionModel)) -> bool {
    &&& at.0.is_final() <==> at.1.is_final()
    &&& at.0 is Failed <==> at.1 is Abort
    &&& at.0 is Failed ==> at.1 == ActionModel::Abort(at.0->Failed_error)
    &&& at.0 is Report ==> at.1 == ActionModel::Report(at.0->Report_total)
}

/// Every answer moves a run that has not ended one stage on, or ends it.
pub proof fn lemma_step_moves_on(state: StateModel, event: EventModel)
    ensures
        in_step(step_model(state, event)),
        !state.is_final() ==> step_model(state, event).0.rank() > state.rank(),
        state.is_final() ==> step_model(state, event).0 == state,
{
}

/// A run puts four questions at most: it has ended after four turns.
pub proof fn lemma_run_ends(
    data: Dataset,
    identifier: Seq<char>,
    start_date: Seq<char>,
    end_date: Seq<char>,
    offset: int,
)
    ensures
        data.outcome(identifier, start_date, end_date, offset).is_final(),
{
    let at0 = begin_model(identifier, start_date, end_date, offset);
    let at1 = data.turn(at0);
    let at2 = data.turn(at1);
    let at3 = data.turn(at2);
    let at4 = data.turn(at3);
    assert(in_step(at0));
    lemma_step_moves_on(at0.0, data.answer(at0.1));
    lemma_step_moves_on(at1.0, data.answer(at1.1));
    lemma_step_moves_on(at2.0, data.answer(at2.1));
    lemma_step_moves_on(at3.0, data.answer(at3.1));
    assert(in_step(at1));
    assert(in_step(at2));
    assert(in_step(at3));
    assert(in_step(at4));
}

/// A run for a well-formed address, between two dates that can be read,
/// whose two block heights are found and whose listing can be read, ends
/// with the report of what the listed transactions cost.
pub proof fn lemma_run_reports_total(
    data: Dataset,
    identifier: Seq<char>,
    start_date: Seq<char>,
    end_date: Seq<char>,
    offset: int,
    start_block: u64,
    end_block: u64,
    rows: Seq<RawTransaction>,
)
    requires
        well_formed_address(identifier),
        date_text_valid(start_date),
        date_text_valid(end_date),
        (data.blocks)(query_for(date_of_text(start_date), offset)) == Some(start_block),
        (data.blocks)(query_for(date_of_text(end_date), offset)) == Some(end_block),
        (data.listings)(listing_for(identifier, start_block, end_block)) == Some(rows),
        rows_readable(rows),
    ensures
        data.outcome(identifier, start_date, end_date, offset) == ActionModel::Report(
            total_cost(rows_records(rows)),
        ),
{
    let at0 = begin_model(identifier, start_date, end_date, offset);
    let at1 = data.turn(at0);
    let at2 = data.turn(at1);
    let at3 = data.turn(at2);
    assert(at0.1 == ActionModel::LookupBlock(query_for(date_of_text(start_date), offset)));
    assert(at1.1 == ActionModel::LookupBlock(query_for(date_of_text(end_date), offset)));
    assert(at2.1 == ActionModel::ListTransactions(listing_for(identifier, start_block, end_block)));
    assert(at3.1 == ActionModel::Report(total_cost(rows_records(rows))));
}

/// Two runs with the same arguments on services that have not changed end
/// alike, and where they end with a report the two reports are the same
/// bit for bit.
pub proof fn lemma_runs_agree(
    data: Dataset,
    identifier: Seq<char>,
    start_date: Seq<char>,
    end_date: Seq<char>,
    offset: int,
    first: Action,
    second: Action,
)
    requires
        first@ == data.outcome(identifier, start_date, end_date, offset),
        second@ == data.outcome(identifier, start_date, end_date, offset),
    ensures
        first@ == second@,
        first is Report ==> second is Report && first->Report_0 == second->Report_0,
        first is Abort ==> second is Abort && first->Abort_0 == second->Abort_0,
{
    if first is Report {
        lemma_value_fixes_limbs(first->Report_0.total, second->Report_0.total);
    }
}

} // verus!
