use kale_farm::digest::{count_leading_zeros, generate_hash};
use kale_farm::farm::KaleFarmContract;
use kale_farm::ledger::{Farmer, FarmerLedger};
use kale_farm::reward::compute_reward;

const T0: u64 = 1_700_000_000;

#[test]
fn test_initialize() {
    let mut client = KaleFarmContract::new();
    client.initialize();
    assert_eq!(client.get_farm_index(), 0);
    assert_eq!(client.get_total_kale(), 0);
}

#[test]
fn test_plant_work_harvest_cycle() {
    let mut client = KaleFarmContract::new();
    client.initialize();
    let farmer: u64 = 1;

    let farm_index = client.plant(farmer, 1000, T0);
    assert_eq!(farm_index, 1);
    assert_eq!(client.get_farm_index(), 1);

    let worked = client.work(farmer, 12345, 3, 0);
    assert!(worked);

    let reward = client.harvest(farmer, farm_index, T0);
    assert!(reward > 0);

    let balance = client.get_kale_balance(farmer);
    assert_eq!(balance, reward);

    let total_earned = client.get_total_earned(farmer);
    assert_eq!(total_earned, reward);
}

#[test]
fn test_multiple_farmers() {
    let mut client = KaleFarmContract::new();
    client.initialize();
    let farmer1: u64 = 1;
    let farmer2: u64 = 2;

    let farm_index1 = client.plant(farmer1, 500, T0);
    assert_eq!(farm_index1, 1);

    let farm_index2 = client.plant(farmer2, 1000, T0);
    assert_eq!(farm_index2, 2);

    let total_kale = client.get_total_kale();
    assert_eq!(total_kale, 1500);
}

#[test]
fn test_farmer_status() {
    let mut client = KaleFarmContract::new();
    client.initialize();
    let farmer: u64 = 7;

    let (planted, worked, harvested) = client.get_farmer_status(farmer);
    assert!(!planted);
    assert!(!worked);
    assert!(!harvested);

    client.plant(farmer, 1000, T0);
    let (planted, worked, harvested) = client.get_farmer_status(farmer);
    assert!(planted);
    assert!(!worked);
    assert!(!harvested);

    client.work(farmer, 12345, 3, 0);
    let (planted, worked, harvested) = client.get_farmer_status(farmer);
    assert!(planted);
    assert!(worked);
    assert!(!harvested);

    client.harvest(farmer, 1, T0);
    let (planted, worked, harvested) = client.get_farmer_status(farmer);
    assert!(planted);
    assert!(worked);
    assert!(harvested);
}

#[test]
fn unknown_farmer_has_defaults() {
    let mut client = KaleFarmContract::new();
    client.plant(1, 100, T0);
    assert!(client.work(1, 5, 1, 9));
    client.harvest(1, 1, T0 + 60);
    client.harvest(99, 1, T0 + 60);
    assert_eq!(client.get_farmer_status(99), (false, false, false));
    assert_eq!(client.get_kale_balance(99), 0);
    assert_eq!(client.get_total_earned(99), 0);
}

#[test]
fn plants_count_and_sum() {
    let mut client = KaleFarmContract::new();
    let calls: [(u64, i128); 5] = [(1, 10), (2, -4), (1, 7), (3, 0), (1, 100)];
    for (i, (farmer, stake)) in calls.iter().enumerate() {
        let index = client.plant(*farmer, *stake, T0);
        assert_eq!(index as usize, i + 1);
    }
    assert_eq!(client.get_farm_index(), 5);
    assert_eq!(client.get_total_kale(), 113);
}

#[test]
fn work_fails_when_quality_is_short() {
    let mut client = KaleFarmContract::new();
    client.plant(1, 100, T0);
    // session 1, nonce 0: bytes 00 00 00 01 00 .. give a run of 7
    assert!(!client.work(1, 0, 8, 0));
    assert_eq!(client.get_farmer_status(1), (true, false, false));
    assert!(client.work(1, 0, 7, 0));
    assert_eq!(client.get_farmer_status(1), (true, true, false));
}

#[test]
fn work_with_zero_claim_always_passes() {
    let mut client = KaleFarmContract::new();
    client.plant(1, 100, T0);
    assert!(client.work(1, u64::MAX, 0, u64::MAX));
}

#[test]
fn harvest_pays_exact_reward() {
    let mut client = KaleFarmContract::new();
    client.plant(4, 1, T0);
    assert!(client.work(4, 12345, 3, 0));
    let reward = client.harvest(4, 1, T0 + 125);
    assert_eq!(reward, 1000 + 300 + 2);
    assert_eq!(client.get_kale_balance(4), 1302);
    assert_eq!(client.get_total_earned(4), 1302);
}

#[test]
fn work_twice_keeps_first_solution() {
    let mut client = KaleFarmContract::new();
    client.plant(4, 1, T0);
    assert!(client.work(4, 12345, 3, 0));
    assert!(!client.work(4, 1, 0, 0));
    let reward = client.harvest(4, 1, T0);
    assert_eq!(reward, 1300);
}

#[test]
fn harvest_twice_pays_once() {
    let mut client = KaleFarmContract::new();
    client.plant(4, 1, T0);
    assert!(client.work(4, 12345, 2, 0));
    assert_eq!(client.harvest(4, 1, T0 + 600), 1210);
    assert_eq!(client.harvest(4, 1, T0 + 6000), 0);
    assert_eq!(client.get_kale_balance(4), 1210);
    assert_eq!(client.get_total_earned(4), 1210);
}

#[test]
fn scenario_two_farmers() {
    let mut client = KaleFarmContract::new();
    let a: u64 = 10;
    let b: u64 = 20;
    assert_eq!(client.plant(a, 1000, T0), 1);
    assert_eq!(client.plant(b, 500, T0 + 5), 2);
    assert_eq!(client.get_total_kale(), 1500);
    assert!(client.work(a, 12345, 3, 0));
    let elapsed: u64 = 3599;
    assert_eq!(client.harvest(a, 1, T0 + elapsed), 1000 + 300 + 59);
}

#[test]
fn harvest_before_work_pays_nothing() {
    let mut client = KaleFarmContract::new();
    client.plant(1, 5, T0);
    assert_eq!(client.harvest(1, 1, T0 + 60), 0);
    assert_eq!(client.get_farmer_status(1), (true, false, false));
    assert_eq!(client.harvest(2, 1, T0 + 60), 0);
}

#[test]
fn harvest_with_clock_behind_counts_no_time() {
    let mut client = KaleFarmContract::new();
    client.plant(1, 5, T0);
    assert!(client.work(1, 0, 1, 0));
    assert_eq!(client.harvest(1, 1, T0 - 600), 1100);
}

#[test]
fn harvest_ignores_session_argument() {
    let mut client = KaleFarmContract::new();
    client.plant(1, 5, T0);
    assert!(client.work(1, 0, 0, 0));
    assert_eq!(client.harvest(1, 42, T0 + 60), 1001);
}

#[test]
fn replant_resets_record() {
    let mut client = KaleFarmContract::new();
    client.plant(1, 5, T0);
    assert!(client.work(1, 0, 0, 0));
    assert_eq!(client.harvest(1, 1, T0), 1000);
    assert_eq!(client.plant(1, 5, T0 + 1), 2);
    assert_eq!(client.get_farmer_status(1), (true, false, false));
    assert_eq!(client.get_kale_balance(1), 0);
    assert_eq!(client.get_total_earned(1), 0);
    assert_eq!(client.get_total_kale(), 10);
}

#[test]
fn plant_at_time_zero_reads_as_unplanted() {
    let mut client = KaleFarmContract::new();
    client.plant(1, 5, 0);
    assert_eq!(client.get_farmer_status(1), (false, false, false));
}

#[test]
fn initialize_resets_counters_and_keeps_records() {
    let mut client = KaleFarmContract::new();
    client.plant(1, 5, T0);
    client.plant(2, 6, T0);
    client.initialize();
    assert_eq!(client.get_farm_index(), 0);
    assert_eq!(client.get_total_kale(), 0);
    assert_eq!(client.get_farmer_status(2), (true, false, false));
    assert_eq!(client.plant(3, 1, T0), 1);
}

#[test]
fn negative_stake_is_accepted() {
    let mut client = KaleFarmContract::new();
    client.plant(1, -250, T0);
    assert_eq!(client.get_total_kale(), -250);
}

#[test]
fn hash_layout_is_big_endian() {
    let h = generate_hash(0x0102_0304, 0x1112_1314_1516_1718, 0x2122_2324_2526_2728, 5);
    assert_eq!(
        h,
        vec![
            1, 2, 3, 4, 0x11, 0x12, 0x13, 0x14, 0x15, 0x16, 0x17, 0x18, 0x21, 0x22, 0x23,
            0x24, 0x25, 0x26, 0x27, 0x28
        ]
    );
}

#[test]
fn hash_ignores_farmer() {
    assert_eq!(generate_hash(1, 2, 3, 4), generate_hash(1, 2, 3, 5));
}

#[test]
fn zero_run_counts_nibbles() {
    assert_eq!(count_leading_zeros(&vec![]), 0);
    assert_eq!(count_leading_zeros(&vec![0, 0]), 4);
    assert_eq!(count_leading_zeros(&vec![0, 0, 0x0f, 0]), 5);
    assert_eq!(count_leading_zeros(&vec![0, 0x10, 0]), 2);
    assert_eq!(count_leading_zeros(&vec![0xff, 0]), 0);
    assert_eq!(count_leading_zeros(&vec![0x01]), 1);
    assert_eq!(count_leading_zeros(&generate_hash(1, 12345, 0, 0)), 7);
}

#[test]
fn reward_formula() {
    assert_eq!(compute_reward(0, 100, 100), 1000);
    assert_eq!(compute_reward(3, 0, 59), 1300);
    assert_eq!(compute_reward(3, 0, 60), 1301);
    assert_eq!(
        compute_reward(u32::MAX, 0, u64::MAX),
        1000 + 100 * (u32::MAX as i128) + (u64::MAX / 60) as i128
    );
}

#[test]
fn ledger_get_and_put() {
    let mut ledger = FarmerLedger::new();
    assert_eq!(ledger.get(3), None);
    assert_eq!(ledger.get_or_default(3), Farmer::unplanted(3));
    let record = Farmer::planted(3, 9, T0);
    ledger.put(3, record);
    assert_eq!(ledger.get(3), Some(record));
    assert_eq!(ledger.get_or_default(3).farm_index, 9);
    assert_eq!(ledger.get(4), None);
}
