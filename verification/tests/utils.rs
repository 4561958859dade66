use btcdb::text::decimal_string;
use btcdb::utils::{
    blockchain_height_line, coinbase_fee, coinbase_total, get_block_reward, raise_heights,
    store_height_from_max, store_height_line, sync_line, update_heights, FeeError, FeeScan,
    HeightRange,
};

#[test]
fn test_get_block_reward_initial() {
    let block_reward = get_block_reward(0);
    assert_eq!(block_reward, 50 * 100_000_000);
}

#[test]
fn test_get_block_reward_after_first_halving() {
    let block_reward = get_block_reward(210_000);
    assert_eq!(block_reward, 25 * 100_000_000);
}

#[test]
fn test_get_block_reward_after_second_halving() {
    let block_reward = get_block_reward(420_000);
    assert_eq!(block_reward, 1_250_000_000);
}

#[test]
fn test_get_block_reward_no_more_halvings() {
    let block_reward = get_block_reward(210_000 * 33); // After 33 halvings, reward should be 0
    assert_eq!(block_reward, 0);
}

#[test]
fn reward_edges_of_eras() {
    assert_eq!(get_block_reward(209_999), 5_000_000_000);
    assert_eq!(get_block_reward(630_000), 625_000_000);
    assert_eq!(get_block_reward(840_000), 312_500_000);
    assert_eq!(get_block_reward(210_000 * 32), 1);
    assert_eq!(get_block_reward(210_000 * 64 - 1), 0);
}

#[test]
fn reward_halves_each_era() {
    let mut h: u64 = 17;
    while h + 210_000 < 210_000 * 64 {
        assert_eq!(get_block_reward(h + 210_000), get_block_reward(h) / 2);
        h += 210_000;
    }
}

#[test]
fn decimal_formatting() {
    assert_eq!(decimal_string(0), "0");
    assert_eq!(decimal_string(7), "7");
    assert_eq!(decimal_string(10), "10");
    assert_eq!(decimal_string(844006), "844006");
    assert_eq!(decimal_string(u64::MAX), u64::MAX.to_string());
}

#[test]
fn coinbase_totals() {
    assert_eq!(coinbase_total(&vec![]), Some(0));
    assert_eq!(coinbase_total(&vec![1, 2, 3]), Some(6));
    assert_eq!(coinbase_total(&vec![u64::MAX, 0]), Some(u64::MAX));
    assert_eq!(coinbase_total(&vec![u64::MAX, 1]), None);
}

#[test]
fn coinbase_fees() {
    // 3.125 BTC subsidy plus 0.2 BTC of fees, paid out in two outputs.
    assert_eq!(coinbase_fee(840_000, &vec![330_000_000, 2_500_000]), Some(20_000_000));
    assert_eq!(coinbase_fee(0, &vec![5_000_000_000]), Some(0));
    // A coinbase that claims less than the subsidy has no fee.
    assert_eq!(coinbase_fee(0, &vec![4_999_999_999]), None);
    // Totals that overflow, and heights past the last halving, have no fee.
    assert_eq!(coinbase_fee(700_000, &vec![u64::MAX, 1]), None);
    assert_eq!(coinbase_fee(210_000 * 64, &vec![5]), None);
}

#[test]
fn fee_scan_walks_the_last_blocks_in_order() {
    assert!(FeeScan::start(2, 4).is_none());
    let mut scan = FeeScan::start(420_001, 2).unwrap();
    assert_eq!(scan.next_height(), Some(420_000));
    assert_eq!(scan.record(&vec![1_250_000_000, 100]), Ok(100));
    assert_eq!(scan.next_height(), Some(420_001));
    assert_eq!(scan.record(&vec![1]), Err(FeeError { height: 420_001 }));
    assert_eq!(scan.next_height(), Some(420_001));
    assert_eq!(scan.record(&vec![1_250_000_007]), Ok(7));
    assert_eq!(scan.next_height(), None);
    assert_eq!(scan.into_fees(), vec![100, 7]);
}

#[test]
fn fee_scan_down_to_genesis() {
    let mut scan = FeeScan::start(2, 3).unwrap();
    assert_eq!(scan.next_height(), Some(0));
    assert_eq!(scan.record(&vec![5_000_000_000]), Ok(0));
    assert_eq!(scan.next_height(), Some(1));
    assert_eq!(scan.record(&vec![5_000_000_001]), Ok(1));
    assert_eq!(scan.next_height(), Some(2));
    assert_eq!(scan.record(&vec![5_000_000_000, 2]), Ok(2));
    assert_eq!(scan.next_height(), None);
    assert_eq!(scan.into_fees(), vec![0, 1, 2]);
}

#[test]
fn fee_scan_of_no_blocks_is_empty() {
    let scan = FeeScan::start(844_000, 0).unwrap();
    assert_eq!(scan.next_height(), None);
    assert_eq!(scan.into_fees(), Vec::<u64>::new());
    let scan = FeeScan::start(0, 0).unwrap();
    assert_eq!(scan.next_height(), None);
}

#[test]
fn fee_scan_single_block_is_the_tip() {
    let mut scan = FeeScan::start(u64::MAX, 1).unwrap();
    assert_eq!(scan.next_height(), Some(u64::MAX));
    assert_eq!(scan.record(&vec![3]), Err(FeeError { height: u64::MAX }));
}

#[test]
fn update_covers_everything_above_the_store() {
    assert_eq!(update_heights(843_173, 844_175), HeightRange { first: 843_174, last: 844_175 });
    // Already level: the range is empty.
    let r = update_heights(10, 10);
    assert!(r.first > r.last);
}

#[test]
fn raise_is_capped_by_request_and_tip() {
    assert_eq!(raise_heights(843_173, 844_175, 100), Some(HeightRange { first: 843_174, last: 843_273 }));
    assert_eq!(raise_heights(844_100, 844_175, 100), Some(HeightRange { first: 844_101, last: 844_175 }));
    assert_eq!(raise_heights(844_175, 844_175, 100), Some(HeightRange { first: 844_176, last: 844_175 }));
    assert_eq!(raise_heights(844_176, 844_175, 100), None);
    assert_eq!(raise_heights(5, 9, 0), Some(HeightRange { first: 6, last: 5 }));
}

#[test]
fn store_height_conversion() {
    assert_eq!(store_height_from_max(844_003), Some(844_003));
    assert_eq!(store_height_from_max(0), Some(0));
    assert_eq!(store_height_from_max(-1), None);
}

#[test]
fn status_report_lines() {
    assert_eq!(blockchain_height_line(844_006), "blockchain height: 844006");
    assert_eq!(store_height_line(844_003), "store height: 844003");
    assert_eq!(sync_line(844_006, 844_003), "store is 3 blocks behind the local blockchain");
    assert_eq!(sync_line(844_175, 843_173), "store is 1002 blocks behind the local blockchain");
    assert_eq!(sync_line(12, 12), "store and the local blockchain have equal height");
}
