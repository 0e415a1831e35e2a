use gas_spent::address::Address;
use gas_spent::error::PipelineError;
use gas_spent::gas::{
    aggregate, fetch_gas, listing_request, records_from_rows, GasReport, RawTransaction,
    SortOrder, TransactionRecord, UNITS_PER_GWEI,
};
use gas_spent::wide::Uint256;

const GWEI: u128 = 1_000_000_000;

fn record(gas_price: u128, gas_used: u64) -> TransactionRecord {
    TransactionRecord { gas_price, gas_used }
}

fn row(gas_price: u128, gas_used: u64) -> RawTransaction {
    RawTransaction {
        gas_price: Some(Uint256::from_u128(gas_price)),
        gas_used: Uint256::from_u128(gas_used as u128),
    }
}

fn in_gwei(report: &GasReport) -> f64 {
    let (whole, left) = report.gwei_parts();
    whole.to_u128().expect("a total that fits") as f64 + left as f64 / 1e9
}

#[test]
fn one_transaction_costs_its_price_times_its_gas() {
    let report = aggregate(&vec![record(21 * GWEI, 21_000)]);
    assert_eq!(report.total.to_u128(), Some(441_000 * GWEI));
    let (whole, left) = report.gwei_parts();
    assert_eq!(whole.to_u128(), Some(441_000));
    assert_eq!(left, 0);
    assert_eq!(in_gwei(&report), 441000.0);
}

#[test]
fn no_transactions_cost_nothing() {
    let report = aggregate(&Vec::new());
    assert_eq!(report.total, Uint256::zero());
    assert!(report.is_zero());
    assert_eq!(in_gwei(&report), 0.0);
    assert_eq!(fetch_gas(&Vec::new()), Ok(report));
}

#[test]
fn each_transaction_is_counted_with_its_own_gas() {
    let report = aggregate(&vec![record(10 * GWEI, 100), record(20 * GWEI, 200)]);
    assert_eq!(report.total.to_u128(), Some(5_000 * GWEI));
    assert_eq!(in_gwei(&report), 5000.0);
    let with_the_first_gas_only = (10 * GWEI * 100 + 20 * GWEI * 100) as f64 / 1e9;
    assert_ne!(in_gwei(&report), with_the_first_gas_only);
}

#[test]
fn the_order_of_the_rows_does_not_change_the_total() {
    let forward = aggregate(&vec![record(3, 5), record(7, 11), record(13, 17)]);
    let backward = aggregate(&vec![record(13, 17), record(7, 11), record(3, 5)]);
    assert_eq!(forward.total.to_u128(), Some(3 * 5 + 7 * 11 + 13 * 17));
    assert_eq!(forward, backward);
}

#[test]
fn a_total_in_pieces_is_the_sum_of_the_pieces() {
    let front = vec![record(21 * GWEI, 21_000), record(5, 7)];
    let back = vec![record(GWEI, 1), record(2 * GWEI, 50_000)];
    let mut all = front.clone();
    all.extend(back.iter().copied());
    let sum = aggregate(&front).total.checked_add(&aggregate(&back).total);
    assert_eq!(sum, Some(aggregate(&all).total));
}

#[test]
fn a_part_of_a_display_unit_is_left_over() {
    let report = aggregate(&vec![record(1_500_000_001, 3)]);
    let (whole, left) = report.gwei_parts();
    assert_eq!(whole.to_u128(), Some(4));
    assert_eq!(left, 500_000_003);
    assert_eq!(UNITS_PER_GWEI, 1_000_000_000);
    assert!(!report.is_zero());
}

#[test]
fn the_widest_price_and_gas_do_not_wrap() {
    let report = aggregate(&vec![record(u128::MAX, u64::MAX)]);
    assert_eq!(
        report.total,
        Uint256 { w0: 1, w1: u64::MAX, w2: u64::MAX - 1, w3: 0 }
    );
    assert_eq!(report.total.to_u128(), None);
    let twice = aggregate(&vec![record(u128::MAX, u64::MAX), record(u128::MAX, u64::MAX)]);
    assert_eq!(
        twice.total,
        Uint256 { w0: 2, w1: u64::MAX - 1, w2: u64::MAX - 2, w3: 1 }
    );
}

#[test]
fn a_price_wider_than_64_bits_is_kept() {
    let price = 1u128 << 100;
    let report = aggregate(&vec![record(price, 3)]);
    assert_eq!(report.total.to_u128(), Some(3 * price));
}

#[test]
fn the_same_rows_give_the_same_report_bit_for_bit() {
    let rows = vec![row(21 * GWEI, 21_000), row(33 * GWEI + 1, 90_017), row(u128::MAX, 2)];
    let first = fetch_gas(&rows).expect("a report");
    let second = fetch_gas(&rows).expect("a report");
    assert_eq!(first.total.limbs(), second.total.limbs());
    assert_eq!(first, second);
}

#[test]
fn readable_rows_become_records() {
    let rows = vec![row(21 * GWEI, 21_000), row(0, 0), row(u128::MAX, u64::MAX)];
    assert_eq!(
        records_from_rows(&rows),
        Ok(vec![record(21 * GWEI, 21_000), record(0, 0), record(u128::MAX, u64::MAX)])
    );
    assert_eq!(records_from_rows(&Vec::new()), Ok(Vec::new()));
}

#[test]
fn a_row_is_read_where_it_can_be() {
    assert_eq!(TransactionRecord::from_raw(&row(7, 9)), Some(record(7, 9)));
    let without_price = RawTransaction { gas_price: None, gas_used: Uint256::from_u128(9) };
    assert_eq!(TransactionRecord::from_raw(&without_price), None);
}

#[test]
fn a_row_without_a_price_spoils_the_listing() {
    let rows = vec![
        row(21 * GWEI, 21_000),
        RawTransaction { gas_price: None, gas_used: Uint256::from_u128(21_000) },
    ];
    assert_eq!(records_from_rows(&rows), Err(PipelineError::TransactionFetchFailed));
    assert_eq!(fetch_gas(&rows), Err(PipelineError::TransactionFetchFailed));
}

#[test]
fn a_price_wider_than_128_bits_spoils_the_listing() {
    let wide = Uint256 { w0: 0, w1: 0, w2: 1, w3: 0 };
    let rows = vec![RawTransaction { gas_price: Some(wide), gas_used: Uint256::from_u128(1) }];
    assert_eq!(fetch_gas(&rows), Err(PipelineError::TransactionFetchFailed));
}

#[test]
fn a_gas_count_wider_than_64_bits_spoils_the_listing() {
    let wide = Uint256 { w0: 0, w1: 1, w2: 0, w3: 0 };
    let rows = vec![
        row(1, 1),
        RawTransaction { gas_price: Some(Uint256::from_u128(1)), gas_used: wide },
    ];
    assert_eq!(fetch_gas(&rows), Err(PipelineError::TransactionFetchFailed));
}

#[test]
fn a_listing_is_read_and_added_up() {
    let rows = vec![row(10 * GWEI, 100), row(20 * GWEI, 200)];
    let report = fetch_gas(&rows).expect("a report");
    assert_eq!(in_gwei(&report), 5000.0);
    assert!(in_gwei(&report) >= 0.0);
}

#[test]
fn the_listing_is_asked_for_in_one_piece_lowest_block_first() {
    let text = "0xAb5801a7D398351b8bE11C439e05C5B3259aeC9B";
    let address = Address::parse(text.to_string()).expect("an address");
    let request = listing_request(&address, 16_308_190, 16_525_000);
    assert_eq!(request.address, address.bytes());
    assert_eq!(request.address[0], 0xab);
    assert_eq!(request.start_block, 16_308_190);
    assert_eq!(request.end_block, 16_525_000);
    assert_eq!(request.page, 0);
    assert_eq!(request.offset, 0);
    assert_eq!(request.sort, SortOrder::Ascending);
}
