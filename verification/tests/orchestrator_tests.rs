use remitwise::common::CONTRACT_VERSION;
use remitwise::orchestrator::{
    AuditEntry, ExecutionStats, Orchestrator, OrchestratorError, OrchestratorOperation, MAX_AUDIT_ENTRIES,
    MAX_DEADLINE_WINDOW_SECS,
};

const OWNER: u64 = 1;
const FW: u64 = 2;
const RS: u64 = 3;
const SG: u64 = 4;
const BP: u64 = 5;
const INS: u64 = 6;
const EXECUTOR: u64 = 7;

fn initialized() -> Orchestrator {
    let mut o = Orchestrator::new();
    assert_eq!(o.init(OWNER, FW, RS, SG, BP, INS), Ok(true));
    o
}

fn flow_hash(nonce: u64, amount: i128, deadline: u64) -> u64 {
    Orchestrator::compute_request_hash("flow", EXECUTOR, nonce, amount, deadline)
}

#[test]
fn test_init_success() {
    let mut o = Orchestrator::new();
    let result = o.init(OWNER, FW, RS, SG, BP, INS);
    assert_eq!(result, Ok(true));
    assert_eq!(o.owner, Some(OWNER));
}

#[test]
fn test_init_already_initialized() {
    let mut o = Orchestrator::new();
    let _ = o.init(OWNER, FW, RS, SG, BP, INS);
    let result = o.init(OWNER, FW, RS, SG, BP, INS);
    assert_eq!(result, Err(OrchestratorError::Unauthorized));
}

#[test]
fn test_init_duplicate_dependencies() {
    let mut o = Orchestrator::new();
    let result = o.init(OWNER, FW, RS, SG, SG, BP);
    assert_eq!(result, Err(OrchestratorError::DuplicateDependency));
}

#[test]
fn test_init_self_reference() {
    let mut o = Orchestrator::new();
    let caller = 10;
    let result = o.init(caller, caller, 11, 12, 13, 14);
    assert_eq!(result, Err(OrchestratorError::DuplicateDependency));
}

#[test]
fn test_get_nonce_uninitialized() {
    let o = Orchestrator::new();
    assert_eq!(o.get_nonce(EXECUTOR), 0);
}

#[test]
fn test_execute_flow_invalid_amount() {
    let mut o = initialized();
    let now = 0;
    let deadline = now + 1000;
    let request_hash = flow_hash(0, 0, deadline);
    let result = o.execute_remittance_flow(EXECUTOR, 0, 0, deadline, request_hash, now);
    assert_eq!(result, Err(OrchestratorError::InvalidAmount));
}

#[test]
fn test_execute_flow_invalid_nonce() {
    let mut o = initialized();
    let now = 0;
    let deadline = now + 1000;
    let request_hash = flow_hash(5, 100, deadline);
    let result = o.execute_remittance_flow(EXECUTOR, 100, 5, deadline, request_hash, now);
    assert_eq!(result, Err(OrchestratorError::InvalidNonce));
}

#[test]
fn test_execute_flow_expired_deadline() {
    let mut o = initialized();
    // A ledger time after the start, so that the deadline can lie in the past.
    let now = 1_000;
    let deadline = now - 100;
    let request_hash = flow_hash(0, 100, deadline);
    let result = o.execute_remittance_flow(EXECUTOR, 100, 0, deadline, request_hash, now);
    assert_eq!(result, Err(OrchestratorError::DeadlineExpired));
}

#[test]
fn test_execute_flow_deadline_too_far_future() {
    let mut o = initialized();
    let now = 0;
    let deadline = now + MAX_DEADLINE_WINDOW_SECS + 1000;
    let request_hash = flow_hash(0, 100, deadline);
    let result = o.execute_remittance_flow(EXECUTOR, 100, 0, deadline, request_hash, now);
    assert_eq!(result, Err(OrchestratorError::DeadlineExpired));
}

#[test]
fn test_execute_flow_invalid_hash() {
    let mut o = initialized();
    let now = 0;
    let deadline = now + 1000;
    let result = o.execute_remittance_flow(EXECUTOR, 100, 0, deadline, 12345, now);
    assert_eq!(result, Err(OrchestratorError::InvalidNonce));
}

#[test]
fn test_execute_flow_success_and_nonce_increment() {
    let mut o = initialized();
    let now = 0;
    let deadline = now + 1000;
    assert_eq!(o.get_nonce(EXECUTOR), 0);
    let request_hash = flow_hash(0, 100, deadline);
    let result = o.execute_remittance_flow(EXECUTOR, 100, 0, deadline, request_hash, now);
    assert_eq!(result, Ok(true));
    assert_eq!(o.get_nonce(EXECUTOR), 1);
}

#[test]
fn test_execute_flow_nonce_double_spend() {
    let mut o = initialized();
    let now = 0;
    let deadline = now + 1000;
    let request_hash = flow_hash(0, 100, deadline);
    let _ = o.execute_remittance_flow(EXECUTOR, 100, 0, deadline, request_hash, now);
    let deadline2 = now + 2000;
    let request_hash2 = flow_hash(0, 100, deadline2);
    let result2 = o.execute_remittance_flow(EXECUTOR, 100, 0, deadline2, request_hash2, now);
    assert_eq!(result2, Err(OrchestratorError::NonceAlreadyUsed));
}

#[test]
fn test_get_execution_stats_initial() {
    let o = initialized();
    assert_eq!(
        o.get_execution_stats(),
        Some(ExecutionStats {
            total_executions: 0,
            successful_executions: 0,
            failed_executions: 0,
            last_execution_time: 0,
        })
    );
}

#[test]
fn test_get_audit_log_empty() {
    let o = initialized();
    assert_eq!(o.get_audit_log(0, 20).len(), 0);
}

#[test]
fn test_get_audit_log_pagination() {
    let mut o = initialized();
    let now = 0;
    for i in 0..5u64 {
        let deadline = now + 1000 + i * 100;
        let request_hash = flow_hash(i, 100 + i as i128, deadline);
        let _ = o.execute_remittance_flow(EXECUTOR, 100 + i as i128, i, deadline, request_hash, now);
    }
    let log = o.get_audit_log(0, 50);
    assert_eq!(log.len(), 5);
}

#[test]
fn test_get_version() {
    let o = initialized();
    assert_eq!(o.get_version(), CONTRACT_VERSION);
}

#[test]
fn test_set_version_success() {
    let mut o = initialized();
    assert_eq!(o.set_version(OWNER, 2), Ok(true));
    assert_eq!(o.get_version(), 2);
}

#[test]
fn test_set_version_unauthorized() {
    let mut o = initialized();
    assert_eq!(o.set_version(99, 2), Err(OrchestratorError::Unauthorized));
}

#[test]
fn test_reentrancy_lock() {
    let mut o = initialized();
    o.exec_lock = true;
    let now = 0;
    let deadline = now + 1000;
    let request_hash = flow_hash(0, 100, deadline);
    let result = o.execute_remittance_flow(EXECUTOR, 100, 0, deadline, request_hash, now);
    assert_eq!(result, Err(OrchestratorError::ExecutionLocked));
}

// ---------------------------------------------------------------------------
// Further scenarios
// ---------------------------------------------------------------------------

#[test]
fn flow_before_init_is_unauthorized() {
    let mut o = Orchestrator::new();
    let r = o.execute_remittance_flow(EXECUTOR, 100, 0, 1000, flow_hash(0, 100, 1000), 0);
    assert_eq!(r, Err(OrchestratorError::Unauthorized));
    assert_eq!(o.get_audit_log(0, 50).len(), 0);
}

#[test]
fn successful_flow_updates_stats_and_audit() {
    let mut o = initialized();
    let now = 500;
    let deadline = now + 10;
    assert_eq!(o.execute_remittance_flow(EXECUTOR, 7, 0, deadline, flow_hash(0, 7, deadline), now), Ok(true));
    assert_eq!(
        o.get_execution_stats(),
        Some(ExecutionStats { total_executions: 1, successful_executions: 1, failed_executions: 0, last_execution_time: 500 })
    );
    assert_eq!(
        o.get_audit_log(0, 0),
        vec![AuditEntry { operation: OrchestratorOperation::FlowExec, executor: EXECUTOR, timestamp: 500, success: true }]
    );
}

#[test]
fn refused_flows_change_nothing() {
    let mut o = initialized();
    assert_eq!(o.execute_remittance_flow(EXECUTOR, -5, 0, 1000, 0, 0), Err(OrchestratorError::InvalidAmount));
    assert_eq!(o.get_audit_log(0, 10).len(), 0);
    assert_eq!(o.get_execution_stats().unwrap().total_executions, 0);
    o.nonces.set(EXECUTOR, u64::MAX);
    let hash = flow_hash(u64::MAX, 10, 1000);
    assert_eq!(o.execute_remittance_flow(EXECUTOR, 10, u64::MAX, 1000, hash, 0), Err(OrchestratorError::Overflow));
    assert!(!o.used_nonces.contains(EXECUTOR, u64::MAX));
    assert_eq!(o.get_nonce(EXECUTOR), u64::MAX);
    assert_eq!(o.get_audit_log(0, 10).len(), 0);
    assert!(!o.exec_lock);
    assert_eq!(o.get_execution_stats().unwrap().total_executions, 0);
}

#[test]
fn deadline_window_boundaries() {
    let mut o = initialized();
    let now = 100;
    let at_now = o.execute_remittance_flow(EXECUTOR, 1, 0, now, flow_hash(0, 1, now), now);
    assert_eq!(at_now, Err(OrchestratorError::DeadlineExpired));
    let last = now + MAX_DEADLINE_WINDOW_SECS;
    assert_eq!(o.execute_remittance_flow(EXECUTOR, 1, 0, last, flow_hash(0, 1, last), now), Ok(true));
}

#[test]
fn request_hash_binds_every_parameter() {
    let base = flow_hash(3, 100, 1000);
    assert_eq!(base, flow_hash(3, 100, 1000));
    assert_ne!(base, flow_hash(4, 100, 1000));
    assert_ne!(base, flow_hash(3, 101, 1000));
    assert_ne!(base, flow_hash(3, 100, 1001));
    assert_ne!(base, Orchestrator::compute_request_hash("other", EXECUTOR, 3, 100, 1000));
}

#[test]
fn audit_log_is_bounded() {
    let mut o = initialized();
    for i in 0..(MAX_AUDIT_ENTRIES as u64 + 5) {
        let hash = flow_hash(i, 10, 1000);
        assert_eq!(o.execute_remittance_flow(EXECUTOR, 10, i, 1000, hash, 0), Ok(true));
    }
    assert_eq!(o.audit.len(), MAX_AUDIT_ENTRIES);
    assert_eq!(o.get_audit_log(0, 50).len(), 50);
    assert_eq!(o.get_audit_log(90, 50).len(), 10);
    assert_eq!(o.get_audit_log(100, 50).len(), 0);
}

#[test]
fn orchestrator_error_codes_are_stable() {
    assert_eq!(OrchestratorError::Unauthorized.code(), 1);
    assert_eq!(OrchestratorError::NonceAlreadyUsed.code(), 5);
    assert_eq!(OrchestratorError::DuplicateDependency.code(), 10);
}

#[test]
fn request_hash_has_its_exact_value() {
    // "flow" as a short symbol value: the 6-bit character codes 43, 49, 52,
    // 60 packed into 11476284, shifted past the 8-bit tag 14.
    let op_bits: u64 = (11_476_284u64 << 8) | 14;
    let expected = (op_bits + 3 + 100 + 1000).wrapping_mul(1_000_000_007);
    assert_eq!(expected, 2_937_929_841_565_508_747);
    assert_eq!(Orchestrator::compute_request_hash("flow", EXECUTOR, 3, 100, 1000), expected);
}
