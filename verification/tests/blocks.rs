use relay_submit::builder_tx::fast_find_builder_tx;
use relay_submit::primitives::{Address, B256};
use relay_submit::submit_time::{has_timestamps, sleep_before_submits};
use relay_submit::validation::{validate_block, BlockRoots};

const DEFAULT_BUILDER: [u8; 20] = [
    0x1a, 0xe3, 0x46, 0xcf, 0x7a, 0x3d, 0xfb, 0x2a, 0x84, 0x1a, 0x7b, 0x78, 0x75, 0x37, 0x43, 0x07,
    0xb0, 0xfc, 0x5f, 0x0b,
];

const FIRST: i128 = -377_705_116_800_000_000_000;
const LAST: i128 = 253_402_300_799_999_999_999;

fn address(byte: u8) -> Address {
    Address { bytes: [byte; 20] }
}

#[test]
fn default_builder_is_found() {
    let builder = Address { bytes: DEFAULT_BUILDER };
    let signers = vec![Some(address(1)), None, Some(builder), Some(address(2))];
    assert_eq!(fast_find_builder_tx(None, &signers), 0);
    let mut other = builder;
    other.bytes[19] = 0x0a;
    assert_eq!(fast_find_builder_tx(None, &vec![Some(other)]), 1);
}

#[test]
fn given_builder_is_found() {
    let signers = vec![Some(address(1)), Some(address(2))];
    assert_eq!(fast_find_builder_tx(Some(address(2)), &signers), 0);
    assert_eq!(fast_find_builder_tx(Some(address(1)), &signers), 0);
    assert_eq!(fast_find_builder_tx(Some(address(3)), &signers), 2);
}

#[test]
fn unrecovered_signers_are_counted() {
    assert_eq!(fast_find_builder_tx(None, &vec![None, None, None]), 3);
}

#[test]
fn empty_block_counts_as_found() {
    assert_eq!(fast_find_builder_tx(None, &vec![]), 0);
}

#[test]
fn sleeps_until_the_start() {
    let slot = 1_724_166_215_000_000_000;
    let delta = -3_000_000_000;
    assert_eq!(sleep_before_submits(slot, delta, slot - 10_000_000_000), Some(7_000_000_000));
    assert_eq!(sleep_before_submits(slot, delta, slot - 3_000_000_001), Some(1));
    assert_eq!(sleep_before_submits(slot, delta, slot - 3_000_000_000), None);
    assert_eq!(sleep_before_submits(slot, delta, slot), None);
    assert_eq!(sleep_before_submits(slot, 5, slot), Some(5));
}

#[test]
fn sleeps_over_the_whole_calendar() {
    assert!(has_timestamps(FIRST, LAST - FIRST, FIRST));
    assert_eq!(
        sleep_before_submits(FIRST, LAST - FIRST, FIRST),
        Some((LAST - FIRST) as u128)
    );
    assert_eq!(sleep_before_submits(LAST, FIRST - LAST, LAST), None);
    assert_eq!(sleep_before_submits(-1, 0, -2), Some(1));
}

#[test]
fn timestamps_outside_of_the_calendar() {
    assert!(!has_timestamps(FIRST - 1, 1, 0));
    assert!(!has_timestamps(LAST, 1, 0));
    assert!(!has_timestamps(0, 0, LAST + 1));
    assert!(!has_timestamps(i128::MAX, i128::MAX, 0));
    assert!(time::OffsetDateTime::from_unix_timestamp_nanos(FIRST - 1).is_err());
    assert!(time::OffsetDateTime::from_unix_timestamp_nanos(FIRST).is_ok());
    assert!(time::OffsetDateTime::from_unix_timestamp_nanos(LAST).is_ok());
    assert!(time::OffsetDateTime::from_unix_timestamp_nanos(LAST + 1).is_err());
}

#[test]
fn missing_withdrawals_root_is_zero() {
    let root = B256 { bytes: [7; 32] };
    let with = validate_block(
        30_000_000,
        BlockRoots { withdrawals_root: Some(root), parent_beacon_block_root: None },
    );
    assert_eq!(with.registered_gas_limit, 30_000_000);
    assert_eq!(with.withdrawals_root, root);
    assert_eq!(with.parent_beacon_block_root, None);
    let without = validate_block(
        1,
        BlockRoots { withdrawals_root: None, parent_beacon_block_root: Some(root) },
    );
    assert_eq!(without.withdrawals_root, B256 { bytes: [0; 32] });
    assert_eq!(without.parent_beacon_block_root, Some(root));
}
