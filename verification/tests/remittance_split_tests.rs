use remitwise::common::Category;
use remitwise::remittance_split::{
    AccountGroup, AuditEntry, MAX_SCHEDULES_PER_OWNER, MAX_SCHEDULE_LEAD_TIME, MIN_SCHEDULE_INTERVAL, ExportSnapshot, RemittanceSplit, RemittanceSplitError, SplitOperation, MAX_AUDIT_ENTRIES,
    SNAPSHOT_VERSION,
};

const OWNER: u64 = 1;
const OTHER: u64 = 2;
const GROUP: AccountGroup = AccountGroup { spending: 11, savings: 12, bills: 13, insurance: 14 };

fn init(c: &mut RemittanceSplit, owner: u64, s: u32, g: u32, b: u32, i: u32) {
    assert_eq!(c.initialize_split(owner, 0, s, g, b, i, 0), Ok(true));
}

fn try_init(c: &mut RemittanceSplit, owner: u64, s: u32, g: u32, b: u32, i: u32) -> Result<bool, RemittanceSplitError> {
    c.initialize_split(owner, 0, s, g, b, i, 0)
}

fn sum(v: &[i128]) -> i128 {
    v.iter().sum()
}

// ---------------------------------------------------------------------------
// Initialisation and updates
// ---------------------------------------------------------------------------

#[test]
fn test_initialize_split_success() {
    let mut c = RemittanceSplit::new();
    let result = c.initialize_split(OWNER, 0, 50, 30, 15, 5, 0);
    assert_eq!(result, Ok(true), "initialize_split should return true on success");
    let config = c.get_config().expect("config should be stored after init");
    assert_eq!(config.owner, OWNER);
    assert_eq!(config.spending_percent, 50);
    assert_eq!(config.savings_percent, 30);
    assert_eq!(config.bills_percent, 15);
    assert_eq!(config.insurance_percent, 5);
    assert!(config.initialized);
}

#[test]
fn test_initialize_split_percentages_must_sum_to_100() {
    let mut c = RemittanceSplit::new();
    assert_eq!(
        c.initialize_split(OWNER, 0, 40, 30, 15, 5, 0),
        Err(RemittanceSplitError::PercentagesDoNotSumTo100)
    );
    assert_eq!(
        c.initialize_split(OWNER, 0, 50, 50, 10, 0, 0),
        Err(RemittanceSplitError::PercentagesDoNotSumTo100)
    );
}

#[test]
fn test_initialize_split_already_initialized_panics() {
    let mut c = RemittanceSplit::new();
    init(&mut c, OWNER, 50, 30, 15, 5);
    assert_eq!(
        c.initialize_split(OWNER, 1, 50, 30, 15, 5, 0),
        Err(RemittanceSplitError::AlreadyInitialized)
    );
}

#[test]
fn test_update_split_owner_only() {
    let mut c = RemittanceSplit::new();
    init(&mut c, OWNER, 50, 30, 15, 5);
    assert_eq!(c.update_split(OTHER, 0, 40, 40, 10, 10, 0), Err(RemittanceSplitError::Unauthorized));
    assert_eq!(c.update_split(OWNER, 1, 40, 40, 10, 10, 0), Ok(true));
}

#[test]
fn test_update_split_percentages_must_sum_to_100() {
    let mut c = RemittanceSplit::new();
    init(&mut c, OWNER, 50, 30, 15, 5);
    assert_eq!(
        c.update_split(OWNER, 1, 60, 30, 15, 5, 0),
        Err(RemittanceSplitError::PercentagesDoNotSumTo100)
    );
    assert_eq!(
        c.update_split(OWNER, 1, 10, 10, 10, 10, 0),
        Err(RemittanceSplitError::PercentagesDoNotSumTo100)
    );
}

#[test]
fn test_get_split_returns_default_before_init() {
    let c = RemittanceSplit::new();
    let split = c.get_split();
    assert_eq!(split.len(), 4);
    assert_eq!(split[0], 50);
    assert_eq!(split[1], 30);
    assert_eq!(split[2], 15);
    assert_eq!(split[3], 5);
}

#[test]
fn test_get_config_returns_none_before_init() {
    let c = RemittanceSplit::new();
    assert!(c.get_config().is_none(), "get_config should be None before init");
}

#[test]
fn test_get_config_returns_some_after_init() {
    let mut c = RemittanceSplit::new();
    init(&mut c, OWNER, 50, 30, 15, 5);
    let config = c.get_config();
    assert!(config.is_some(), "get_config should be Some after init");
    let config = config.unwrap();
    assert_eq!(config.owner, OWNER, "config owner must match the initializer");
    assert_eq!(config.spending_percent, 50);
    assert_eq!(config.savings_percent, 30);
    assert_eq!(config.bills_percent, 15);
    assert_eq!(config.insurance_percent, 5);
}

#[test]
fn test_split_data_persists_across_ledger_advancements() {
    let mut c = RemittanceSplit::new();
    assert_eq!(c.initialize_split(OWNER, 0, 50, 30, 15, 5, 1000), Ok(true));
    assert_eq!(c.update_split(OWNER, 1, 40, 25, 20, 15, 510_000), Ok(true));
    let result = c.calculate_split(1000).unwrap();
    assert_eq!(result.len(), 4);
    let config = c.get_config();
    assert!(config.is_some(), "Config must persist across ledger advancements");
    let config = config.unwrap();
    assert_eq!(config.spending_percent, 40);
    assert_eq!(config.savings_percent, 25);
}

// ---------------------------------------------------------------------------
// calculate_split
// ---------------------------------------------------------------------------

#[test]
fn test_calculate_split_positive_amount() {
    let mut c = RemittanceSplit::new();
    init(&mut c, OWNER, 50, 30, 15, 5);
    let amounts = c.calculate_split(1000).unwrap();
    assert_eq!(amounts.len(), 4);
    assert_eq!(amounts[0], 500);
    assert_eq!(amounts[1], 300);
    assert_eq!(amounts[2], 150);
    assert_eq!(amounts[3], 50);
}

#[test]
fn test_calculate_split_zero_or_negative_panics() {
    let mut c = RemittanceSplit::new();
    init(&mut c, OWNER, 50, 30, 15, 5);
    assert_eq!(c.calculate_split(0), Err(RemittanceSplitError::InvalidAmount));
    assert_eq!(c.calculate_split(-1), Err(RemittanceSplitError::InvalidAmount));
    assert_eq!(c.calculate_split(-9999), Err(RemittanceSplitError::InvalidAmount));
}

#[test]
fn test_calculate_split_rounding() {
    let mut c = RemittanceSplit::new();
    init(&mut c, OWNER, 33, 33, 33, 1);
    assert_eq!(sum(&c.calculate_split(100).unwrap()), 100, "split amounts must sum to total_amount");
    assert_eq!(sum(&c.calculate_split(7).unwrap()), 7, "split amounts must sum to total_amount");
    assert_eq!(sum(&c.calculate_split(1000).unwrap()), 1000, "split amounts must sum to total_amount");
}

#[test]
fn calculate_split_exact_values_with_remainder() {
    let mut c = RemittanceSplit::new();
    init(&mut c, OWNER, 33, 33, 33, 1);
    assert_eq!(c.calculate_split(7).unwrap(), vec![2, 2, 2, 1]);
    let mut d = RemittanceSplit::new();
    init(&mut d, OWNER, 40, 30, 20, 10);
    assert_eq!(d.calculate_split(1000).unwrap(), vec![400, 300, 200, 100]);
}

#[test]
fn calculate_split_uses_default_before_init() {
    let c = RemittanceSplit::new();
    assert_eq!(c.calculate_split(1000).unwrap(), vec![500, 300, 150, 50]);
}

#[test]
fn fuzz_calculate_split_sum_preservation() {
    let test_cases = vec![
        (1000, 50, 30, 15, 5),
        (1, 25, 25, 25, 25),
        (999, 33, 33, 33, 1),
        (i128::MAX / 100, 25, 25, 25, 25),
        (12345678, 17, 19, 23, 41),
        (100, 1, 1, 1, 97),
        (999999, 10, 20, 30, 40),
        (7, 40, 30, 20, 10),
        (543210, 70, 10, 10, 10),
        (1000000, 0, 0, 0, 100),
    ];
    for (total_amount, sp, sg, sb, si) in test_cases {
        let mut c = RemittanceSplit::new();
        if try_init(&mut c, OWNER, sp, sg, sb, si).is_err() {
            continue;
        }
        let amounts = match c.calculate_split(total_amount) {
            Ok(a) => a,
            Err(_) => continue,
        };
        assert_eq!(sum(&amounts), total_amount, "Sum mismatch for percentages {}%/{}%/{}%/{}%", sp, sg, sb, si);
        assert!(amounts.iter().all(|a| *a >= 0), "Negative amount detected");
    }
}

#[test]
fn fuzz_calculate_split_small_amounts() {
    let mut c = RemittanceSplit::new();
    init(&mut c, OWNER, 25, 25, 25, 25);
    for amount in 1..=100i128 {
        let amounts = c.calculate_split(amount).unwrap();
        assert_eq!(sum(&amounts), amount, "Sum mismatch for amount {}", amount);
        assert!(amounts.iter().all(|a| *a <= amount), "Amount exceeds total");
    }
}

#[test]
fn fuzz_rounding_behavior() {
    let prime_percentages = vec![(3u32, 7u32, 11u32, 79u32), (13, 17, 23, 47), (19, 23, 29, 29), (31, 37, 11, 21), (41, 43, 7, 9)];
    for (sp, sg, sb, si) in prime_percentages {
        let mut c = RemittanceSplit::new();
        init(&mut c, OWNER, sp, sg, sb, si);
        for amount in &[100i128, 1000, 9999, 123456] {
            let amounts = c.calculate_split(*amount).unwrap();
            assert_eq!(sum(&amounts), *amount, "Rounding error for amount {} with {}%/{}%/{}%/{}%", amount, sp, sg, sb, si);
        }
    }
}

#[test]
fn fuzz_invalid_amounts() {
    let mut c = RemittanceSplit::new();
    init(&mut c, OWNER, 50, 30, 15, 5);
    for amount in &[0i128, -1, -100, -1000, i128::MIN] {
        assert!(c.calculate_split(*amount).is_err(), "Expected error for amount {}", amount);
    }
}

#[test]
fn fuzz_invalid_percentages() {
    let invalid_percentages = vec![(50u32, 50u32, 10u32, 0u32), (25, 25, 25, 24), (100, 0, 0, 1), (0, 0, 0, 0), (30, 30, 30, 30)];
    for (sp, sg, sb, si) in invalid_percentages {
        let mut c = RemittanceSplit::new();
        let total = sp + sg + sb + si;
        let result = try_init(&mut c, OWNER, sp, sg, sb, si);
        if total != 100 {
            assert!(result.is_err(), "Expected error for percentages summing to {}", total);
        }
    }
}

#[test]
fn fuzz_large_amounts() {
    let mut c = RemittanceSplit::new();
    init(&mut c, OWNER, 25, 25, 25, 25);
    for amount in &[i128::MAX / 1000, i128::MAX / 100, 1_000_000_000_000i128, 999_999_999_999i128] {
        if let Ok(amounts) = c.calculate_split(*amount) {
            assert_eq!(sum(&amounts), *amount, "Sum mismatch for large amount {}", amount);
        }
    }
}

#[test]
fn fuzz_single_category_splits() {
    for (sp, sg, sb, si) in [(100u32, 0u32, 0u32, 0u32), (0, 100, 0, 0), (0, 0, 100, 0), (0, 0, 0, 100)] {
        let mut c = RemittanceSplit::new();
        init(&mut c, OWNER, sp, sg, sb, si);
        let amounts = c.calculate_split(1000).unwrap();
        assert_eq!(sum(&amounts), 1000);
        if sp == 100 {
            assert_eq!(amounts[0], 1000);
        }
        if sg == 100 {
            assert_eq!(amounts[1], 1000);
        }
        if sb == 100 {
            assert_eq!(amounts[2], 1000);
        }
        if si == 100 {
            assert_eq!(amounts[3], 1000);
        }
    }
}

#[test]
fn test_calculate_split_with_large_amount() {
    let mut c = RemittanceSplit::new();
    init(&mut c, OWNER, 50, 30, 15, 5);
    let large_amount = i128::MAX / 200;
    let amounts = c.calculate_split(large_amount).unwrap();
    assert_eq!(amounts.len(), 4);
    assert_eq!(sum(&amounts), large_amount);
}

#[test]
fn test_calculate_split_near_max_safe_value() {
    let mut c = RemittanceSplit::new();
    init(&mut c, OWNER, 50, 30, 15, 5);
    let max_safe = i128::MAX / 100 - 1;
    let amounts = c.calculate_split(max_safe).unwrap();
    assert!((sum(&amounts) - max_safe).abs() < 4);
}

#[test]
fn test_calculate_split_with_minimal_percentages() {
    let mut c = RemittanceSplit::new();
    init(&mut c, OWNER, 1, 1, 1, 97);
    let large_amount = i128::MAX / 150;
    assert_eq!(sum(&c.calculate_split(large_amount).unwrap()), large_amount);
}

#[test]
fn test_get_split_allocations_with_large_amount() {
    let mut c = RemittanceSplit::new();
    init(&mut c, OWNER, 50, 30, 15, 5);
    let large_amount = i128::MAX / 200;
    let allocations = c.get_split_allocations(large_amount).unwrap();
    assert_eq!(allocations.len(), 4);
    let total: i128 = allocations.iter().map(|a| a.amount).sum();
    assert_eq!(total, large_amount);
}

#[test]
fn test_multiple_splits_with_large_amounts() {
    let mut c = RemittanceSplit::new();
    init(&mut c, OWNER, 50, 30, 15, 5);
    let large_amount = i128::MAX / 300;
    for _ in 0..5 {
        assert_eq!(sum(&c.calculate_split(large_amount).unwrap()), large_amount);
    }
}

#[test]
fn test_edge_case_i128_max_divided_by_100() {
    let mut c = RemittanceSplit::new();
    init(&mut c, OWNER, 50, 30, 15, 5);
    let amounts = c.calculate_split(i128::MAX / 100).unwrap();
    assert_eq!(amounts.len(), 4);
}

#[test]
fn test_split_with_100_percent_to_one_category() {
    let mut c = RemittanceSplit::new();
    init(&mut c, OWNER, 100, 0, 0, 0);
    let large_amount = i128::MAX / 150;
    let amounts = c.calculate_split(large_amount).unwrap();
    assert_eq!(amounts[0], large_amount);
    assert_eq!(amounts[1], 0);
    assert_eq!(amounts[2], 0);
    assert_eq!(amounts[3], 0);
}

#[test]
fn test_rounding_behavior_with_large_amounts() {
    let mut c = RemittanceSplit::new();
    init(&mut c, OWNER, 33, 33, 33, 1);
    let large_amount = i128::MAX / 200;
    assert_eq!(sum(&c.calculate_split(large_amount).unwrap()), large_amount);
}

#[test]
fn test_sequential_large_calculations() {
    let mut c = RemittanceSplit::new();
    init(&mut c, OWNER, 50, 30, 15, 5);
    for amount in &[i128::MAX / 1000, i128::MAX / 500, i128::MAX / 200, i128::MAX / 150, i128::MAX / 100] {
        let splits = c.calculate_split(*amount);
        assert!(splits.is_ok(), "Failed for amount: {}", amount);
        assert_eq!(sum(&splits.unwrap()), *amount, "Failed for amount: {}", amount);
    }
}

#[test]
fn test_checked_arithmetic_prevents_silent_overflow() {
    let mut c = RemittanceSplit::new();
    init(&mut c, OWNER, 50, 30, 15, 5);
    for amount in &[i128::MAX / 40, i128::MAX / 30, i128::MAX] {
        assert!(c.calculate_split(*amount).is_err(), "Should have detected overflow for amount: {}", amount);
    }
}

#[test]
fn calculate_split_overflow_is_reported() {
    let mut c = RemittanceSplit::new();
    init(&mut c, OWNER, 50, 30, 15, 5);
    assert_eq!(c.calculate_split(i128::MAX / 50 + 1), Err(RemittanceSplitError::Overflow));
}

#[test]
fn test_insurance_remainder_calculation_with_large_values() {
    let mut c = RemittanceSplit::new();
    init(&mut c, OWNER, 40, 30, 20, 10);
    let large_amount = i128::MAX / 200;
    assert_eq!(sum(&c.calculate_split(large_amount).unwrap()), large_amount);
}

#[test]
fn split_allocations_are_labelled_in_category_order() {
    let c = RemittanceSplit::new();
    let allocations = c.get_split_allocations(1000).unwrap();
    let cats: Vec<Category> = allocations.iter().map(|a| a.category).collect();
    assert_eq!(cats, vec![Category::Spending, Category::Savings, Category::Bills, Category::Insurance]);
    let amounts: Vec<i128> = allocations.iter().map(|a| a.amount).collect();
    assert_eq!(amounts, vec![500, 300, 150, 50]);
}

// ---------------------------------------------------------------------------
// Nonces, pausing, administration
// ---------------------------------------------------------------------------

#[test]
fn initialize_advances_nonce_and_replay_is_refused() {
    let mut c = RemittanceSplit::new();
    init(&mut c, OWNER, 50, 30, 15, 5);
    assert_eq!(c.get_nonce(OWNER), 1);
    assert_eq!(c.update_split(OWNER, 0, 40, 40, 10, 10, 0), Err(RemittanceSplitError::InvalidNonce));
    // update does not advance the nonce
    assert_eq!(c.update_split(OWNER, 1, 40, 40, 10, 10, 0), Ok(true));
    assert_eq!(c.get_nonce(OWNER), 1);
}

#[test]
fn paused_contract_refuses_configuration_changes() {
    let mut c = RemittanceSplit::new();
    assert_eq!(c.pause(OWNER), Err(RemittanceSplitError::NotInitialized));
    init(&mut c, OWNER, 50, 30, 15, 5);
    assert_eq!(c.pause(OTHER), Err(RemittanceSplitError::Unauthorized));
    assert_eq!(c.pause(OWNER), Ok(()));
    assert!(c.is_paused());
    assert_eq!(c.update_split(OWNER, 1, 40, 40, 10, 10, 0), Err(RemittanceSplitError::Unauthorized));
    assert_eq!(c.unpause(OWNER), Ok(()));
    assert!(!c.is_paused());
    assert_eq!(c.update_split(OWNER, 1, 40, 40, 10, 10, 0), Ok(true));
}

#[test]
fn pause_admin_takes_over_pausing() {
    let mut c = RemittanceSplit::new();
    init(&mut c, OWNER, 50, 30, 15, 5);
    assert_eq!(c.set_pause_admin(OTHER, OTHER), Err(RemittanceSplitError::Unauthorized));
    assert_eq!(c.set_pause_admin(OWNER, OTHER), Ok(()));
    assert_eq!(c.pause(OWNER), Err(RemittanceSplitError::Unauthorized));
    assert_eq!(c.pause(OTHER), Ok(()));
}

#[test]
fn version_is_set_by_the_upgrade_authority() {
    let mut c = RemittanceSplit::new();
    assert_eq!(c.get_version(), 1);
    assert_eq!(c.set_version(OWNER, 2), Err(RemittanceSplitError::NotInitialized));
    init(&mut c, OWNER, 50, 30, 15, 5);
    assert_eq!(c.set_version(OTHER, 2), Err(RemittanceSplitError::Unauthorized));
    assert_eq!(c.set_version(OWNER, 2), Ok(()));
    assert_eq!(c.get_version(), 2);
    assert_eq!(c.set_upgrade_admin(OWNER, OTHER), Ok(()));
    assert_eq!(c.set_version(OWNER, 3), Err(RemittanceSplitError::Unauthorized));
    assert_eq!(c.set_version(OTHER, 3), Ok(()));
    assert_eq!(c.get_version(), 3);
}

// ---------------------------------------------------------------------------
// Distribution
// ---------------------------------------------------------------------------

#[test]
fn distribution_returns_amounts_and_advances_nonce() {
    let mut c = RemittanceSplit::new();
    init(&mut c, OWNER, 40, 30, 20, 10);
    assert_eq!(c.distribute_usdc(OTHER, 0, GROUP, 1000, 5), Ok(vec![(11, 400), (12, 300), (13, 200), (14, 100)]));
    assert_eq!(c.get_nonce(OTHER), 1);
    assert_eq!(c.distribute_usdc(OTHER, 0, GROUP, 1000, 5), Err(RemittanceSplitError::InvalidNonce));
    assert_eq!(c.distribute_usdc(OTHER, 1, GROUP, 0, 5), Err(RemittanceSplitError::InvalidAmount));
    let log = c.get_audit_log(0, 10);
    assert_eq!(log.len(), 2);
    assert_eq!(
        log[1],
        AuditEntry { operation: SplitOperation::Distribute, caller: OTHER, timestamp: 5, success: true }
    );
    assert_eq!(c.get_nonce(OTHER), 1);
}

// ---------------------------------------------------------------------------
// Snapshots
// ---------------------------------------------------------------------------

#[test]
fn export_then_import_round_trips() {
    let mut c = RemittanceSplit::new();
    init(&mut c, OWNER, 50, 30, 15, 5);
    assert_eq!(c.export_snapshot(OTHER), Err(RemittanceSplitError::Unauthorized));
    let snap = c.export_snapshot(OWNER).unwrap().unwrap();
    assert_eq!(snap.version, SNAPSHOT_VERSION);
    assert_eq!(snap.checksum, (1 + 50 + 30 + 15 + 5) * 31);
    assert_eq!(c.import_snapshot(OWNER, 1, snap, 0), Ok(true));
    assert_eq!(c.get_nonce(OWNER), 2);
    assert_eq!(c.get_config().unwrap().spending_percent, 50);
}

#[test]
fn import_rejects_bad_snapshots() {
    let mut c = RemittanceSplit::new();
    assert_eq!(c.export_snapshot(OWNER), Err(RemittanceSplitError::NotInitialized));
    init(&mut c, OWNER, 50, 30, 15, 5);
    let snap = c.export_snapshot(OWNER).unwrap().unwrap();
    let bad_version = ExportSnapshot { version: 2, ..snap };
    assert_eq!(c.import_snapshot(OWNER, 1, bad_version, 0), Err(RemittanceSplitError::UnsupportedVersion));
    let bad_checksum = ExportSnapshot { checksum: snap.checksum + 1, ..snap };
    assert_eq!(c.import_snapshot(OWNER, 1, bad_checksum, 0), Err(RemittanceSplitError::ChecksumMismatch));
    assert_eq!(c.import_snapshot(OTHER, 0, snap, 0), Err(RemittanceSplitError::Unauthorized));
    let mut bad_config = snap.config;
    bad_config.insurance_percent = 6;
    let bad_sum = ExportSnapshot { version: 1, checksum: RemittanceSplit::compute_checksum(1, &bad_config), config: bad_config };
    assert_eq!(c.import_snapshot(OWNER, 1, bad_sum, 0), Err(RemittanceSplitError::PercentagesDoNotSumTo100));
    assert_eq!(c.import_snapshot(OWNER, 7, snap, 0), Err(RemittanceSplitError::InvalidNonce));
    assert_eq!(c.get_audit_log(0, 100).len(), 1);
    assert_eq!(c.get_nonce(OWNER), 1);
}

// ---------------------------------------------------------------------------
// Audit log
// ---------------------------------------------------------------------------

#[test]
fn audit_log_pagination_and_bound() {
    let mut c = RemittanceSplit::new();
    for i in 0..(MAX_AUDIT_ENTRIES as u64 + 20) {
        assert!(c.distribute_usdc(OWNER, i, GROUP, 100, 0).is_ok());
    }
    assert_eq!(c.get_audit_log(0, 1000).len(), MAX_AUDIT_ENTRIES as usize);
    assert_eq!(c.get_audit_log(95, 10).len(), 5);
    assert_eq!(c.get_audit_log(100, 10).len(), 0);
    assert_eq!(c.get_audit_log(0, 0).len(), 0);
}

// ---------------------------------------------------------------------------
// Schedules
// ---------------------------------------------------------------------------

#[test]
fn test_schedule_id_uniqueness_across_operations() {
    let mut c = RemittanceSplit::new();
    init(&mut c, OWNER, 50, 30, 15, 5);
    let now = 0;
    let amount = 1000_i128;
    let next_due = now + 86400;
    let interval = 86400;
    let id1 = c.create_remittance_schedule(OWNER, amount, next_due, interval, now).unwrap();
    let id2 = c.create_remittance_schedule(OWNER, amount, next_due, interval, now).unwrap();
    let id3 = c.create_remittance_schedule(OWNER, amount, next_due, interval, now).unwrap();
    assert_ne!(id1, id2);
    assert_ne!(id2, id3);
    c.modify_remittance_schedule(OWNER, id1, amount * 2, next_due + 100, interval, now).unwrap();
    let mod_schedule = c.get_remittance_schedule(id1).unwrap();
    assert_eq!(mod_schedule.id, id1, "Schedule ID must remain stable after modification");
    c.cancel_remittance_schedule(OWNER, id2).unwrap();
    let cancelled = c.get_remittance_schedule(id2).unwrap();
    assert!(!cancelled.active);
    let id4 = c.create_remittance_schedule(OWNER, amount, next_due, interval, now).unwrap();
    assert!(id4 > id3, "New ID must be greater than all previous IDs");
    assert_ne!(id4, id1);
    assert_ne!(id4, id2);
    assert_ne!(id4, id3);
}

#[test]
fn schedule_validation_errors() {
    let mut c = RemittanceSplit::new();
    assert_eq!(c.create_remittance_schedule(OWNER, 0, 10, 0, 5), Err(RemittanceSplitError::InvalidAmount));
    assert_eq!(c.create_remittance_schedule(OWNER, 10, 5, 0, 5), Err(RemittanceSplitError::InvalidDueDate));
    let id = c.create_remittance_schedule(OWNER, 10, 6, 0, 5).unwrap();
    assert_eq!(id, 1);
    let s = c.get_remittance_schedule(id).unwrap();
    assert!(!s.recurring);
    assert!(s.active);
    assert_eq!(s.created_at, 5);
    assert_eq!(c.modify_remittance_schedule(OWNER, 9, 10, 60, 3600, 5), Err(RemittanceSplitError::ScheduleNotFound));
    assert_eq!(c.modify_remittance_schedule(OTHER, id, 10, 60, 3600, 5), Err(RemittanceSplitError::Unauthorized));
    assert_eq!(c.modify_remittance_schedule(OTHER, id, 10, 60, 1, 5), Err(RemittanceSplitError::ScheduleIntervalTooShort));
    assert_eq!(c.modify_remittance_schedule(OWNER, id, 10, 60, 3600, 5), Ok(true));
    assert!(c.get_remittance_schedule(id).unwrap().recurring);
    assert_eq!(c.cancel_remittance_schedule(OTHER, id), Err(RemittanceSplitError::Unauthorized));
    assert_eq!(c.cancel_remittance_schedule(OWNER, 0), Err(RemittanceSplitError::ScheduleNotFound));
    assert!(c.get_remittance_schedule(0).is_none());
}

#[test]
fn schedules_are_listed_per_owner_in_id_order() {
    let mut c = RemittanceSplit::new();
    let a = c.create_remittance_schedule(OWNER, 1, 10, 0, 0).unwrap();
    let _b = c.create_remittance_schedule(OTHER, 2, 10, 0, 0).unwrap();
    let d = c.create_remittance_schedule(OWNER, 3, 10, 0, 0).unwrap();
    let mine: Vec<u32> = c.get_remittance_schedules(OWNER).iter().map(|s| s.id).collect();
    assert_eq!(mine, vec![a, d]);
    assert!(c.get_remittance_schedules(99).is_empty());
}

#[test]
fn split_error_codes_are_stable() {
    assert_eq!(RemittanceSplitError::AlreadyInitialized.code(), 1);
    assert_eq!(RemittanceSplitError::InvalidNonce.code(), 7);
    assert_eq!(RemittanceSplitError::ScheduleNotFound.code(), 11);
}

#[test]
fn test_create_schedule_one_off_allowed() {
    let mut c = RemittanceSplit::new();
    init(&mut c, OWNER, 50, 30, 15, 5);
    let now = 0;
    let next_due = now + 1;
    let schedule_id = c.create_remittance_schedule(OWNER, 1000, next_due, 0, now).unwrap();
    let schedule = c.get_remittance_schedule(schedule_id).unwrap();
    assert_eq!(schedule.interval, 0);
    assert!(!schedule.recurring);
}

#[test]
fn refused_calls_change_nothing() {
    let mut c = RemittanceSplit::new();
    c.nonces.set(OWNER, u64::MAX);
    assert_eq!(c.initialize_split(OWNER, u64::MAX, 50, 30, 15, 5, 0), Err(RemittanceSplitError::Overflow));
    assert!(c.get_config().is_none());
    assert_eq!(c.get_audit_log(0, 10).len(), 0);
    assert_eq!(c.initialize_split(OWNER, u64::MAX, 50, 30, 15, 6, 0), Err(RemittanceSplitError::PercentagesDoNotSumTo100));
    assert_eq!(c.get_audit_log(0, 10).len(), 0);
    assert_eq!(c.distribute_usdc(OTHER, 0, GROUP, 0, 0), Err(RemittanceSplitError::InvalidAmount));
    assert_eq!(c.get_audit_log(0, 10).len(), 0);
    assert_eq!(c.get_nonce(OWNER), u64::MAX);
}

#[test]
fn distribution_leaves_out_zero_amounts() {
    let mut c = RemittanceSplit::new();
    init(&mut c, OWNER, 100, 0, 0, 0);
    assert_eq!(c.distribute_usdc(OWNER, 1, GROUP, 1000, 0), Ok(vec![(11, 1000)]));
    let mut d = RemittanceSplit::new();
    init(&mut d, OWNER, 50, 30, 15, 5);
    assert_eq!(d.distribute_usdc(OWNER, 1, GROUP, 3, 0), Ok(vec![(11, 1), (14, 2)]));
}

#[test]
fn percentages_that_overflow_u32_are_refused() {
    let mut c = RemittanceSplit::new();
    assert_eq!(
        c.initialize_split(OWNER, 0, u32::MAX, 1, 0, 0, 0),
        Err(RemittanceSplitError::PercentagesDoNotSumTo100)
    );
    assert!(c.get_config().is_none());
}

fn setup_split() -> RemittanceSplit {
    let mut c = RemittanceSplit::new();
    init(&mut c, OWNER, 50, 30, 15, 5);
    c
}

#[test]
fn test_create_schedule_at_min_interval_allowed() {
    let mut c = setup_split();
    let now = 0;
    let next_due = now + 1;
    let schedule_id = c.create_remittance_schedule(OWNER, 1000, next_due, MIN_SCHEDULE_INTERVAL, now).unwrap();
    let schedule = c.get_remittance_schedule(schedule_id).unwrap();
    assert_eq!(schedule.interval, MIN_SCHEDULE_INTERVAL);
    assert!(schedule.recurring);
}

#[test]
fn test_create_schedule_below_min_interval_rejected() {
    let mut c = setup_split();
    let now = 0;
    let result = c.create_remittance_schedule(OWNER, 1000, now + 1, MIN_SCHEDULE_INTERVAL - 1, now);
    assert_eq!(result, Err(RemittanceSplitError::ScheduleIntervalTooShort));
}

#[test]
fn test_create_schedule_above_min_interval_allowed() {
    let mut c = setup_split();
    let now = 0;
    let schedule_id = c.create_remittance_schedule(OWNER, 1000, now + 1, MIN_SCHEDULE_INTERVAL * 2, now).unwrap();
    let schedule = c.get_remittance_schedule(schedule_id).unwrap();
    assert_eq!(schedule.interval, MIN_SCHEDULE_INTERVAL * 2);
    assert!(schedule.recurring);
}

#[test]
fn test_modify_schedule_below_min_interval_rejected() {
    let mut c = setup_split();
    let now = 0;
    let schedule_id = c.create_remittance_schedule(OWNER, 1000, now + 1, MIN_SCHEDULE_INTERVAL, now).unwrap();
    let result = c.modify_remittance_schedule(OWNER, schedule_id, 1000, now + 2, MIN_SCHEDULE_INTERVAL - 1, now);
    assert_eq!(result, Err(RemittanceSplitError::ScheduleIntervalTooShort));
}

#[test]
fn test_modify_schedule_to_one_off_allowed() {
    let mut c = setup_split();
    let now = 0;
    let schedule_id = c.create_remittance_schedule(OWNER, 1000, now + 1, MIN_SCHEDULE_INTERVAL, now).unwrap();
    c.modify_remittance_schedule(OWNER, schedule_id, 1000, now + 2, 0, now).unwrap();
    let schedule = c.get_remittance_schedule(schedule_id).unwrap();
    assert_eq!(schedule.interval, 0);
    assert!(!schedule.recurring);
}

#[test]
fn test_create_schedule_at_max_lead_time_allowed() {
    let mut c = setup_split();
    let now = 0;
    let next_due = now + MAX_SCHEDULE_LEAD_TIME;
    let schedule_id = c.create_remittance_schedule(OWNER, 1000, next_due, MIN_SCHEDULE_INTERVAL, now).unwrap();
    let schedule = c.get_remittance_schedule(schedule_id).unwrap();
    assert_eq!(schedule.next_due, next_due);
}

#[test]
fn test_create_schedule_beyond_max_lead_time_rejected() {
    let mut c = setup_split();
    let now = 0;
    let next_due = now + MAX_SCHEDULE_LEAD_TIME + 1;
    let result = c.create_remittance_schedule(OWNER, 1000, next_due, MIN_SCHEDULE_INTERVAL, now);
    assert_eq!(result, Err(RemittanceSplitError::ScheduleLeadTimeTooLong));
}

#[test]
fn test_modify_schedule_beyond_max_lead_time_rejected() {
    let mut c = setup_split();
    let now = 0;
    let schedule_id = c.create_remittance_schedule(OWNER, 1000, now + 1, MIN_SCHEDULE_INTERVAL, now).unwrap();
    let result = c.modify_remittance_schedule(
        OWNER,
        schedule_id,
        1000,
        now + MAX_SCHEDULE_LEAD_TIME + 1,
        MIN_SCHEDULE_INTERVAL,
        now,
    );
    assert_eq!(result, Err(RemittanceSplitError::ScheduleLeadTimeTooLong));
}

#[test]
fn test_create_schedule_interval_one_second_rejected() {
    let mut c = setup_split();
    let now = 0;
    let result = c.create_remittance_schedule(OWNER, 1000, now + 1, 1, now);
    assert_eq!(result, Err(RemittanceSplitError::ScheduleIntervalTooShort));
    assert!(c.get_remittance_schedules(OWNER).is_empty());
}

#[test]
fn test_schedule_cap_enforcement() {
    let mut c = setup_split();
    let now = 0;
    for i in 0..50u64 {
        c.create_remittance_schedule(OWNER, 1000 + i as i128, now + (i + 1) * 1000, 3600, now).unwrap();
    }
    assert_eq!(c.get_remittance_schedules(OWNER).len(), 50);
    let result = c.create_remittance_schedule(OWNER, 9999, now + 99999, 3600, now);
    assert_eq!(result, Err(RemittanceSplitError::ScheduleCapExceeded));
    assert_eq!(c.get_remittance_schedules(OWNER).len(), 50);
}

#[test]
fn test_schedule_cap_constants() {
    assert_eq!(MAX_SCHEDULES_PER_OWNER, 50);
    let error = RemittanceSplitError::ScheduleCapExceeded;
    assert!(matches!(error, RemittanceSplitError::ScheduleCapExceeded));
}

#[test]
fn test_empty_schedule_creation() {
    let mut c = setup_split();
    let now = 0;
    for i in 0..5u64 {
        c.create_remittance_schedule(OWNER, 1000 + i as i128, now + (i + 1) * 1000, 3600, now).unwrap();
    }
    assert_eq!(c.get_remittance_schedules(OWNER).len(), 5);
}

#[test]
fn cancelled_schedules_free_a_slot_under_the_cap() {
    let mut c = setup_split();
    for i in 0..50u64 {
        c.create_remittance_schedule(OWNER, 1000, (i + 1) * 1000, 3600, 0).unwrap();
    }
    assert_eq!(c.count_active_schedules(OWNER), 50);
    assert_eq!(c.cancel_remittance_schedule(OWNER, 1), Ok(true));
    assert_eq!(c.count_active_schedules(OWNER), 49);
    assert_eq!(c.create_remittance_schedule(OWNER, 9999, 99999, 3600, 0), Ok(51));
    assert_eq!(c.create_remittance_schedule(OTHER, 9999, 99999, 3600, 0), Ok(52));
}

#[test]
fn schedule_error_codes_are_stable() {
    assert_eq!(RemittanceSplitError::ScheduleIntervalTooShort.code(), 12);
    assert_eq!(RemittanceSplitError::ScheduleLeadTimeTooLong.code(), 13);
    assert_eq!(RemittanceSplitError::ScheduleCapExceeded.code(), 14);
}
