use relay_submit::best_bid::best_bid_algo;
use relay_submit::metrics::{count_bundles, run_submit_to_relays_job_and_metrics, OrderKind};
use relay_submit::submit_job::BuiltBlockInfo;
use relay_submit::u256::U256;

fn n(value: u64) -> U256 {
    U256::from_u64(value)
}

fn high(limb3: u64) -> U256 {
    U256 { limb0: 0, limb1: 0, limb2: 0, limb3 }
}

#[test]
fn lower_bid_of_the_two_is_taken() {
    assert_eq!(best_bid_algo(n(5), n(7)), n(5));
    assert_eq!(best_bid_algo(n(7), n(5)), n(5));
    assert_eq!(best_bid_algo(n(7), n(7)), n(7));
    assert_eq!(best_bid_algo(n(0), n(7)), U256::zero());
}

#[test]
fn bids_stop_at_the_limit() {
    let limit = n(1_000_000_000_000);
    assert_eq!(best_bid_algo(n(999_999_999_999), n(2_000_000_000_000)), n(999_999_999_999));
    assert_eq!(best_bid_algo(limit, limit), limit);
    assert_eq!(best_bid_algo(n(1_000_000_000_001), n(2_000_000_000_000)), limit);
    assert_eq!(best_bid_algo(high(1), high(2)), limit);
    assert_eq!(best_bid_algo(high(1), n(3)), n(3));
}

#[test]
fn limbs_are_compared_from_the_most_significant_one() {
    let a = U256 { limb0: u64::MAX, limb1: 0, limb2: 0, limb3: 0 };
    let b = U256 { limb0: 0, limb1: 1, limb2: 0, limb3: 0 };
    assert_eq!(best_bid_algo(a, b), n(1_000_000_000_000));
    assert_eq!(best_bid_algo(b, n(1)), n(1));
    assert_eq!(best_bid_algo(n(1), b), n(1));
}

#[test]
fn subsidy_is_the_bid_above_the_earnings() {
    let subsidised = BuiltBlockInfo { bid_value: n(10), true_bid_value: n(4) };
    let subsidy = run_submit_to_relays_job_and_metrics(Some(subsidised)).unwrap();
    assert_eq!(subsidy.value, n(6));
    assert!(!subsidy.landed);
}

#[test]
fn subsidy_borrows_over_limbs() {
    let subsidised = BuiltBlockInfo { bid_value: high(1), true_bid_value: n(1) };
    let subsidy = run_submit_to_relays_job_and_metrics(Some(subsidised)).unwrap();
    assert_eq!(
        subsidy.value,
        U256 { limb0: u64::MAX, limb1: u64::MAX, limb2: u64::MAX, limb3: 0 }
    );
}

#[test]
fn no_subsidy_without_a_bid_above_the_earnings() {
    let even = BuiltBlockInfo { bid_value: n(4), true_bid_value: n(4) };
    let cheap = BuiltBlockInfo { bid_value: n(3), true_bid_value: n(4) };
    assert!(run_submit_to_relays_job_and_metrics(Some(even)).is_none());
    assert!(run_submit_to_relays_job_and_metrics(Some(cheap)).is_none());
    assert!(run_submit_to_relays_job_and_metrics(None).is_none());
}

#[test]
fn bundles_are_the_orders_that_are_no_transactions() {
    let orders = vec![OrderKind::Tx, OrderKind::Bundle, OrderKind::Tx, OrderKind::ShareBundle];
    assert_eq!(count_bundles(&orders), 2);
    assert_eq!(count_bundles(&vec![]), 0);
    assert_eq!(count_bundles(&vec![OrderKind::Tx]), 0);
}

#[test]
fn higher_bids_never_lower_the_bid_competed_with() {
    let steps = [n(0), n(1), n(999_999_999_999), n(1_000_000_000_000), n(u64::MAX), high(1)];
    for w in steps.windows(2) {
        for other in steps {
            let low = best_bid_algo(w[0], other);
            let high = best_bid_algo(w[1], other);
            assert_eq!(best_bid_algo(low, high), low);
            assert_eq!(best_bid_algo(other, w[0]), low);
        }
    }
}

#[test]
fn values_are_their_numbers() {
    assert_eq!(n(7), U256 { limb0: 7, limb1: 0, limb2: 0, limb3: 0 });
    assert_ne!(n(7), high(7));
}
