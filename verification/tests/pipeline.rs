use gas_spent::account::Account;
use gas_spent::calendar::{Closest, UtcOffset};
use gas_spent::error::PipelineError;
use gas_spent::gas::{GasReport, RawTransaction, SortOrder};
use gas_spent::pipeline::{advance, begin, Action, Event, State};
use gas_spent::wide::Uint256;

const ADDRESS: &str = "0xAAAAaaaaAAAAaaaaAAAAaaaaAAAAaaaaAAAAaaaa";
const GWEI: u128 = 1_000_000_000;

fn account(identifier: &str, start: &str, end: &str) -> Account {
    Account {
        address_or_name: identifier.to_string(),
        start_date: start.to_string(),
        end_date: end.to_string(),
    }
}

fn start(identifier: &str, start: &str, end: &str) -> (State, Action) {
    begin(account(identifier, start, end), UtcOffset::default())
}

fn row(gas_price: u128, gas_used: u64) -> RawTransaction {
    RawTransaction {
        gas_price: Some(Uint256::from_u128(gas_price)),
        gas_used: Uint256::from_u128(gas_used as u128),
    }
}

fn in_gwei(report: &GasReport) -> f64 {
    let (whole, left) = report.gwei_parts();
    whole.to_u128().expect("a total that fits") as f64 + left as f64 / 1e9
}

/// Runs to the end with the two heights and the listing given, and says how it ended.
fn run(identifier: &str, first: u64, second: u64, rows: Option<Vec<RawTransaction>>) -> Action {
    let (state, action) = start(identifier, "01/01/2023", "31/01/2023");
    assert!(matches!(action, Action::LookupBlock(_)));
    let (state, action) = advance(state, Event::BlockFound(Some(first)));
    assert!(matches!(action, Action::LookupBlock(_)));
    let (state, action) = advance(state, Event::BlockFound(Some(second)));
    assert!(matches!(action, Action::ListTransactions(_)));
    let (state, action) = advance(state, Event::TransactionsListed(rows));
    assert!(matches!(state, State::Report { .. } | State::Failed { .. }));
    action
}

#[test]
fn a_run_for_an_address_goes_from_the_dates_to_the_report() {
    let (state, action) = start(ADDRESS, "01/01/2023", "31/01/2023");
    match (&state, &action) {
        (State::ResolveBlocks { address, found_start: None, .. }, Action::LookupBlock(query)) => {
            assert_eq!(address.as_str(), ADDRESS);
            assert_eq!(query.timestamp, 1_672_513_200);
            assert_eq!(query.closest, Closest::After);
        }
        other => panic!("wrong first step: {other:?}"),
    }
    assert_eq!(action.exit_status(), None);

    let (state, action) = advance(state, Event::BlockFound(Some(16_308_190)));
    match (&state, &action) {
        (
            State::ResolveBlocks { found_start: Some(16_308_190), .. },
            Action::LookupBlock(query),
        ) => {
            assert_eq!(query.timestamp, 1_675_105_200);
            assert_eq!(query.closest, Closest::After);
        }
        other => panic!("wrong second step: {other:?}"),
    }

    let (state, action) = advance(state, Event::BlockFound(Some(16_522_000)));
    match (&state, &action) {
        (
            State::Aggregate { address, start_block: 16_308_190, end_block: 16_522_000 },
            Action::ListTransactions(request),
        ) => {
            assert_eq!(request.address, address.bytes());
            assert_eq!(request.address, [0xaa; 20]);
            assert_eq!((request.start_block, request.end_block), (16_308_190, 16_522_000));
            assert_eq!((request.page, request.offset), (0, 0));
            assert_eq!(request.sort, SortOrder::Ascending);
        }
        other => panic!("wrong third step: {other:?}"),
    }

    let rows = vec![row(10 * GWEI, 100), row(20 * GWEI, 200)];
    let (state, action) = advance(state, Event::TransactionsListed(Some(rows)));
    match (&state, &action) {
        (State::Report { report }, Action::Report(shown)) => {
            assert_eq!(report, shown);
            assert_eq!(in_gwei(report), 5000.0);
            assert!(in_gwei(report) >= 0.0);
        }
        other => panic!("wrong last step: {other:?}"),
    }
    assert_eq!(action.exit_status(), Some(0));
}

#[test]
fn a_run_for_a_name_asks_the_name_service_first() {
    let (state, action) = start("vitalik.eth", "01/01/2023", "31/01/2023");
    assert!(matches!(state, State::ResolveIdentifier { .. }));
    match &action {
        Action::ResolveAlias(name) => assert_eq!(name, "vitalik.eth"),
        other => panic!("wrong first step: {other:?}"),
    }
    let (state, action) = advance(state, Event::AliasResolved(Some([0xd8; 20])));
    match (&state, &action) {
        (State::ResolveBlocks { address, found_start: None, .. }, Action::LookupBlock(query)) => {
            assert_eq!(address.as_str(), "0xd8d8d8d8d8d8d8d8d8d8d8d8d8d8d8d8d8d8d8d8");
            assert_eq!(query.timestamp, 1_672_513_200);
        }
        other => panic!("wrong second step: {other:?}"),
    }
}

#[test]
fn a_bad_date_ends_the_run_before_anything_is_asked() {
    for (first, second) in [("2023-01-01", "31/01/2023"), ("01/01/2023", "31/02/2023")] {
        let (state, action) = start(ADDRESS, first, second);
        assert!(matches!(state, State::Failed { error: PipelineError::InvalidDateFormat }));
        assert!(matches!(action, Action::Abort(PipelineError::InvalidDateFormat)));
        assert_eq!(action.exit_status(), Some(1));
    }
}

#[test]
fn the_dates_are_read_before_the_identifier() {
    let (_, action) = start("nobody", "1/1/2023", "31/01/2023");
    assert!(matches!(action, Action::Abort(PipelineError::InvalidDateFormat)));
}

#[test]
fn a_bad_identifier_ends_the_run_before_anything_is_asked() {
    let (_, action) = start("0x1234", "01/01/2023", "31/01/2023");
    assert!(matches!(action, Action::Abort(PipelineError::InvalidAddressFormat)));
    let (_, action) = start("nobody", "01/01/2023", "31/01/2023");
    assert!(matches!(action, Action::Abort(PipelineError::UnrecognizedIdentifierForm)));
    assert_eq!(action.exit_status(), Some(1));
}

#[test]
fn a_name_that_is_not_resolved_ends_the_run() {
    let (state, _) = start("nobody.eth", "01/01/2023", "31/01/2023");
    let (state, action) = advance(state, Event::AliasResolved(None));
    assert!(matches!(state, State::Failed { error: PipelineError::AliasResolutionFailed }));
    assert!(matches!(action, Action::Abort(PipelineError::AliasResolutionFailed)));
}

#[test]
fn a_block_that_is_not_found_ends_the_run() {
    let (state, _) = start(ADDRESS, "01/01/2023", "31/01/2023");
    let (_, action) = advance(state, Event::BlockFound(None));
    assert!(matches!(action, Action::Abort(PipelineError::BlockLookupFailed)));

    let (state, _) = start(ADDRESS, "01/01/2023", "31/01/2023");
    let (state, _) = advance(state, Event::BlockFound(Some(1)));
    let (_, action) = advance(state, Event::BlockFound(None));
    assert!(matches!(action, Action::Abort(PipelineError::BlockLookupFailed)));
}

#[test]
fn a_listing_that_fails_ends_the_run() {
    let action = run(ADDRESS, 10, 20, None);
    assert!(matches!(action, Action::Abort(PipelineError::TransactionFetchFailed)));
    assert_eq!(action.exit_status(), Some(1));
}

#[test]
fn a_listing_that_cannot_be_read_ends_the_run() {
    let rows = vec![RawTransaction { gas_price: None, gas_used: Uint256::from_u128(21_000) }];
    let action = run(ADDRESS, 10, 20, Some(rows));
    assert!(matches!(action, Action::Abort(PipelineError::TransactionFetchFailed)));
}

#[test]
fn an_empty_listing_is_a_report_of_nothing() {
    match run(ADDRESS, 10, 20, Some(Vec::new())) {
        Action::Report(report) => {
            assert!(report.is_zero());
            assert_eq!(in_gwei(&report), 0.0);
        }
        other => panic!("no report: {other:?}"),
    }
}

#[test]
fn dates_the_wrong_way_round_still_give_a_report() {
    let (state, action) = start(ADDRESS, "31/01/2023", "01/01/2023");
    match &action {
        Action::LookupBlock(query) => assert_eq!(query.timestamp, 1_675_105_200),
        other => panic!("wrong first step: {other:?}"),
    }
    let (state, _) = advance(state, Event::BlockFound(Some(16_522_000)));
    let (state, action) = advance(state, Event::BlockFound(Some(16_308_190)));
    match &action {
        Action::ListTransactions(request) => {
            assert!(request.start_block > request.end_block);
        }
        other => panic!("wrong third step: {other:?}"),
    }
    let (_, action) = advance(state, Event::TransactionsListed(Some(Vec::new())));
    match action {
        Action::Report(report) => assert_eq!(in_gwei(&report), 0.0),
        other => panic!("no report: {other:?}"),
    }
}

#[test]
fn a_failed_listing_of_a_range_the_wrong_way_round_is_told_apart() {
    let action = run(ADDRESS, 20, 10, None);
    assert!(matches!(action, Action::Abort(PipelineError::RangeQueryFailed)));
    let action = run(ADDRESS, 10, 10, None);
    assert!(matches!(action, Action::Abort(PipelineError::TransactionFetchFailed)));
}

#[test]
fn an_answer_that_was_not_asked_for_ends_the_run() {
    let (state, _) = start("vitalik.eth", "01/01/2023", "31/01/2023");
    let (_, action) = advance(state, Event::BlockFound(Some(1)));
    assert!(matches!(action, Action::Abort(PipelineError::AliasResolutionFailed)));

    let (state, _) = start(ADDRESS, "01/01/2023", "31/01/2023");
    let (_, action) = advance(state, Event::TransactionsListed(Some(Vec::new())));
    assert!(matches!(action, Action::Abort(PipelineError::BlockLookupFailed)));

    let (state, _) = start(ADDRESS, "01/01/2023", "31/01/2023");
    let (state, _) = advance(state, Event::BlockFound(Some(1)));
    let (state, _) = advance(state, Event::BlockFound(Some(2)));
    let (_, action) = advance(state, Event::BlockFound(Some(3)));
    assert!(matches!(action, Action::Abort(PipelineError::TransactionFetchFailed)));
}

#[test]
fn a_run_that_has_failed_stays_failed() {
    let (state, _) = start(ADDRESS, "01/01/2023", "31/01/2023");
    let (state, _) = advance(state, Event::BlockFound(None));
    let (state, action) = advance(state, Event::BlockFound(Some(5)));
    assert!(matches!(action, Action::Abort(PipelineError::BlockLookupFailed)));
    let (state, action) = advance(state, Event::TransactionsListed(Some(Vec::new())));
    assert!(matches!(state, State::Failed { error: PipelineError::BlockLookupFailed }));
    assert!(matches!(action, Action::Abort(PipelineError::BlockLookupFailed)));
}

#[test]
fn a_run_that_has_reported_stays_as_it_is() {
    let (state, _) = start(ADDRESS, "01/01/2023", "31/01/2023");
    let (state, _) = advance(state, Event::BlockFound(Some(1)));
    let (state, _) = advance(state, Event::BlockFound(Some(2)));
    let (state, first) = advance(state, Event::TransactionsListed(Some(vec![row(GWEI, 3)])));
    let (_, again) = advance(state, Event::AliasResolved(None));
    match (first, again) {
        (Action::Report(first), Action::Report(again)) => {
            assert_eq!(first, again);
            assert_eq!(in_gwei(&first), 3.0);
        }
        other => panic!("no report: {other:?}"),
    }
}

#[test]
fn two_runs_on_the_same_answers_report_the_same_bits() {
    let rows = vec![row(21 * GWEI, 21_000), row(17 * GWEI + 5, 64_123), row(u128::MAX, 9)];
    let first = run(ADDRESS, 16_308_190, 16_522_000, Some(rows.clone()));
    let second = run(ADDRESS, 16_308_190, 16_522_000, Some(rows));
    match (first, second) {
        (Action::Report(first), Action::Report(second)) => {
            assert_eq!(first.total.limbs(), second.total.limbs());
            assert_eq!(in_gwei(&first).to_bits(), in_gwei(&second).to_bits());
        }
        other => panic!("no reports: {other:?}"),
    }
}

#[test]
fn another_offset_moves_the_midnights() {
    let utc = UtcOffset::from_seconds(0).expect("an offset");
    let (_, action) = begin(account(ADDRESS, "01/01/2023", "31/01/2023"), utc);
    match action {
        Action::LookupBlock(query) => assert_eq!(query.timestamp, 1_672_531_200),
        other => panic!("wrong first step: {other:?}"),
    }
}
