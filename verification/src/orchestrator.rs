//! The orchestrator: one-time wiring of the dependent contracts, and the
//! replay-protected remittance flow with its execution lock, statistics and
//! bounded audit log.

use vstd::prelude::*;
use crate::codec::{is_short_symbol, short_symbol_payload, symbol_payload};
use crate::common::{clamp_limit, clamped_limit, AccountId, CONTRACT_VERSION};
use crate::ledger::{capped_push, push_capped, NonceBook, SpentNonces};

verus! {

/// Number of spent nonces remembered per account; older ones are forgotten.
pub const MAX_USED_NONCES_PER_ADDR: usize = 256;

/// Longest time, in ledger seconds, that a signed request stays valid.
pub const MAX_DEADLINE_WINDOW_SECS: u64 = 3600;

/// Number of audit entries kept; older ones are dropped.
pub const MAX_AUDIT_ENTRIES: usize = 100;

/// Multiplier of the request-binding hash.
pub const REQUEST_HASH_MULTIPLIER: u64 = 1_000_000_007;

/// Operation recorded in the orchestrator's audit log.
#[derive(Clone, Copy, Debug, PartialEq, Eq, Structural)]
pub enum OrchestratorOperation {
    /// The `flow_exec` operation: an attempt to run a remittance flow.
    FlowExec,
}

/// One audit log entry.
#[derive(Clone, Copy, Debug, PartialEq, Eq, Structural)]
pub struct AuditEntry {
    pub operation: OrchestratorOperation,
    pub executor: AccountId,
    pub timestamp: u64,
    pub success: bool,
}

/// Execution counters.
#[derive(Clone, Copy, Debug, PartialEq, Eq, Structural)]
pub struct ExecutionStats {
    pub total_executions: u32,
    pub successful_executions: u32,
    pub failed_executions: u32,
    pub last_execution_time: u64,
}

/// Orchestrator errors.
#[derive(Clone, Copy, Debug, PartialEq, Eq, Structural, PartialOrd, Ord)]
pub enum OrchestratorError {
    Unauthorized,
    InvalidAmount,
    Overflow,
    CrossContractCallFailed,
    NonceAlreadyUsed,
    InvalidNonce,
    DeadlineExpired,
    ExecutionLocked,
    InvalidDependency,
    DuplicateDependency,
}

/// Wire code of an orchestrator error.
pub open spec fn orchestrator_error_code(e: OrchestratorError) -> u32 {
    match e {
        OrchestratorError::Unauthorized => 1,
        OrchestratorError::InvalidAmount => 2,
        OrchestratorError::Overflow => 3,
        OrchestratorError::CrossContractCallFailed => 4,
        OrchestratorError::NonceAlreadyUsed => 5,
        OrchestratorError::InvalidNonce => 6,
        OrchestratorError::DeadlineExpired => 7,
        OrchestratorError::ExecutionLocked => 8,
        OrchestratorError::InvalidDependency => 9,
        OrchestratorError::DuplicateDependency => 10,
    }
}

impl OrchestratorError {
    /// Wire code of the error.
    pub fn code(self) -> (r: u32)
        ensures
            r == orchestrator_error_code(self),
    {
        match self {
            OrchestratorError::Unauthorized => 1,
            OrchestratorError::InvalidAmount => 2,
            OrchestratorError::Overflow => 3,
            OrchestratorError::CrossContractCallFailed => 4,
            OrchestratorError::NonceAlreadyUsed => 5,
            OrchestratorError::InvalidNonce => 6,
            OrchestratorError::DeadlineExpired => 7,
            OrchestratorError::ExecutionLocked => 8,
            OrchestratorError::InvalidDependency => 9,
            OrchestratorError::DuplicateDependency => 10,
        }
    }
}

/// Addresses of the contracts the orchestrator drives.
#[derive(Clone, Copy, Debug, PartialEq, Eq, Structural)]
pub struct Dependencies {
    pub family_wallet: AccountId,
    pub remittance_split: AccountId,
    pub savings_goals: AccountId,
    pub bill_payments: AccountId,
    pub insurance: AccountId,
}

/// The orchestrator's state.
pub struct Orchestrator {
    /// The initialiser; `None` until `init` succeeds.
    pub owner: Option<AccountId>,
    pub dependencies: Option<Dependencies>,
    /// Held while a flow executes, to refuse re-entrant flows.
    pub exec_lock: bool,
    pub nonces: NonceBook,
    pub used_nonces: SpentNonces,
    pub stats: Option<ExecutionStats>,
    pub audit: Vec<AuditEntry>,
    pub version: Option<u32>,
}

// ---------------------------------------------------------------------------
// Specifications
// ---------------------------------------------------------------------------

/// The dependency addresses in declaration order.
pub open spec fn dependency_list(d: Dependencies) -> Seq<AccountId> {
    seq![d.family_wallet, d.remittance_split, d.savings_goals, d.bill_payments, d.insurance]
}

/// Whether a dependency refers to the caller or two dependencies coincide.
pub open spec fn has_duplicate_dependency(caller: AccountId, d: Dependencies) -> bool {
    let l = dependency_list(d);
    (exists|i: int| 0 <= i < 5 && #[trigger] l[i] == caller) || (exists|i: int, j: int|
        0 <= i < j < 5 && #[trigger] l[i] == #[trigger] l[j])
}

/// The request-binding hash: `(op + nonce + amount_lo + amount_hi + deadline) * 1_000_000_007`,
/// every step wrapping at 2^64.
pub open spec fn request_hash_of(op_bits: u64, nonce: u64, amount: i128, deadline: u64) -> u64 {
    let lo = amount as u64;
    let hi = (amount >> 64i128) as u64;
    let s1 = vstd::wrapping::u64_specs::wrapping_add(op_bits, nonce);
    let s2 = vstd::wrapping::u64_specs::wrapping_add(s1, lo);
    let s3 = vstd::wrapping::u64_specs::wrapping_add(s2, hi);
    let s4 = vstd::wrapping::u64_specs::wrapping_add(s3, deadline);
    vstd::wrapping::u64_specs::wrapping_mul(s4, REQUEST_HASH_MULTIPLIER)
}

/// The hash a flow request must carry.
pub open spec fn flow_request_hash(nonce: u64, amount: i128, deadline: u64) -> u64 {
    request_hash_of(short_symbol_payload("flow"@), nonce, amount, deadline)
}

/// Dependency law: a set of dependencies passes the duplicate check only
/// when the five addresses are pairwise distinct and none is the caller;
/// any two equal addresses, adjacent or not, are a duplicate.
pub proof fn lemma_dependencies_pairwise_distinct(caller: AccountId, d: Dependencies)
    ensures
        !has_duplicate_dependency(caller, d) ==> (forall|i: int, j: int|
            0 <= i < j < 5 ==> dependency_list(d)[i] != dependency_list(d)[j]) && (forall|i: int|
            0 <= i < 5 ==> dependency_list(d)[i] != caller),
        (exists|i: int, j: int| 0 <= i < j < 5 && dependency_list(d)[i] == dependency_list(d)[j])
            ==> has_duplicate_dependency(caller, d),
{
    let l = dependency_list(d);
    if !has_duplicate_dependency(caller, d) {
        assert forall|i: int, j: int| 0 <= i < j < 5 implies l[i] != l[j] by {
            if l[i] == l[j] {
                assert(0 <= i < j < 5 && l[i] == l[j]);
            }
        }
        assert forall|i: int| 0 <= i < 5 implies l[i] != caller by {
            if l[i] == caller {
                assert(0 <= i < 5 && l[i] == caller);
            }
        }
    }
    if exists|i: int, j: int| 0 <= i < j < 5 && dependency_list(d)[i] == dependency_list(d)[j] {
        let (i, j) = choose|i: int, j: int| 0 <= i < j < 5 && dependency_list(d)[i] == dependency_list(d)[j];
        assert(l[i] == l[j]);
    }
}

/// Statistics law: a counted execution adds one to the stored total, and to
/// the stored successes or failures as its outcome says, stopping at
/// `u32::MAX`; the other counter is kept, and the time is the execution's.
/// Before any counters exist, the first execution counts as one.
pub proof fn lemma_stats_accumulate(prev: Option<ExecutionStats>, success: bool, now: u64)
    ensures
        ({
            let next = stats_after(prev, success, now);
            let base = match prev {
                Some(s) => s,
                None => ExecutionStats {
                    total_executions: 0,
                    successful_executions: 0,
                    failed_executions: 0,
                    last_execution_time: 0,
                },
            };
            &&& base.total_executions < u32::MAX ==> next.total_executions == base.total_executions + 1
            &&& base.total_executions == u32::MAX ==> next.total_executions == u32::MAX
            &&& success && base.successful_executions < u32::MAX ==> next.successful_executions
                == base.successful_executions + 1
            &&& success ==> next.failed_executions == base.failed_executions
            &&& !success && base.failed_executions < u32::MAX ==> next.failed_executions == base.failed_executions
                + 1
            &&& !success ==> next.successful_executions == base.successful_executions
            &&& next.last_execution_time == now
            &&& prev is None ==> next.total_executions == 1
        }),
{
}

/// Zeroed execution counters.
pub open spec fn zero_stats() -> ExecutionStats {
    ExecutionStats {
        total_executions: 0,
        successful_executions: 0,
        failed_executions: 0,
        last_execution_time: 0,
    }
}

/// `x + 1`, saturating at `u32::MAX`.
pub open spec fn saturating_inc(x: u32) -> u32 {
    if x == u32::MAX {
        x
    } else {
        (x + 1) as u32
    }
}

/// The counters after one more execution.
pub open spec fn stats_after(prev: Option<ExecutionStats>, success: bool, now: u64) -> ExecutionStats {
    let base = match prev {
        Some(s) => s,
        None => zero_stats(),
    };
    ExecutionStats {
        total_executions: saturating_inc(base.total_executions),
        successful_executions: if success {
            saturating_inc(base.successful_executions)
        } else {
            base.successful_executions
        },
        failed_executions: if success {
            base.failed_executions
        } else {
            saturating_inc(base.failed_executions)
        },
        last_execution_time: now,
    }
}

/// The audit entry of a flow attempt.
pub open spec fn flow_audit_entry(executor: AccountId, now: u64, success: bool) -> AuditEntry {
    AuditEntry { operation: OrchestratorOperation::FlowExec, executor, timestamp: now, success }
}

impl Orchestrator {
    /// Why a flow request is refused, or `None` when it runs.
    ///
    /// Checks run in this order: initialisation, amount, execution lock,
    /// deadline window, spent-nonce set, sequential nonce, request hash,
    /// nonce overflow.
    pub open spec fn flow_refusal(
        &self,
        executor: AccountId,
        amount: i128,
        nonce: u64,
        deadline: u64,
        request_hash: u64,
        now: u64,
    ) -> Option<OrchestratorError> {
        if self.owner is None {
            Some(OrchestratorError::Unauthorized)
        } else if amount <= 0 {
            Some(OrchestratorError::InvalidAmount)
        } else if self.exec_lock {
            Some(OrchestratorError::ExecutionLocked)
        } else if deadline <= now || deadline > now + MAX_DEADLINE_WINDOW_SECS {
            Some(OrchestratorError::DeadlineExpired)
        } else if self.used_nonces.spent_of(executor).contains(nonce) {
            Some(OrchestratorError::NonceAlreadyUsed)
        } else if nonce != self.nonces.nonce_of(executor) {
            Some(OrchestratorError::InvalidNonce)
        } else if request_hash != flow_request_hash(nonce, amount, deadline) {
            Some(OrchestratorError::InvalidNonce)
        } else if nonce == u64::MAX {
            Some(OrchestratorError::Overflow)
        } else {
            None
        }
    }

    /// The page of the audit log that `get_audit_log` returns.
    pub open spec fn audit_page(&self, from_index: u32, limit: u32) -> Seq<AuditEntry> {
        let len = self.audit@.len();
        if from_index >= len {
            Seq::empty()
        } else {
            let end = from_index + clamped_limit(limit);
            let end = if end > u32::MAX { u32::MAX as int } else { end };
            let end = if end > len { len as int } else { end };
            self.audit@.subrange(from_index as int, end)
        }
    }
}

// ---------------------------------------------------------------------------
// Operations
// ---------------------------------------------------------------------------

impl Orchestrator {
    /// A fresh, uninitialised orchestrator.
    pub fn new() -> (r: Orchestrator)
        ensures
            r.owner is None,
            r.dependencies is None,
            !r.exec_lock,
            r.nonces@ == Map::<AccountId, u64>::empty(),
            forall|a: AccountId| #[trigger] r.used_nonces.spent_of(a) == Seq::<u64>::empty(),
            r.stats is None,
            r.audit@ == Seq::<AuditEntry>::empty(),
            r.version is None,
    {
        Orchestrator {
            owner: None,
            dependencies: None,
            exec_lock: false,
            nonces: NonceBook::new(),
            used_nonces: SpentNonces::new(),
            stats: None,
            audit: Vec::new(),
            version: None,
        }
    }

    /// Initialises the orchestrator once, recording the caller as owner and
    /// the five dependency addresses.
    ///
    /// Refused with `Unauthorized` when already initialised, and with
    /// `DuplicateDependency` when a dependency is the caller or two
    /// dependencies coincide. On success the nonce counters are reset, the
    /// execution lock is released and the statistics are zeroed.
    pub fn init(
        &mut self,
        caller: AccountId,
        family_wallet: AccountId,
        remittance_split: AccountId,
        savings_goals: AccountId,
        bill_payments: AccountId,
        insurance: AccountId,
    ) -> (r: Result<bool, OrchestratorError>)
        ensures
            ({
                let deps = Dependencies {
                    family_wallet,
                    remittance_split,
                    savings_goals,
                    bill_payments,
                    insurance,
                };
                &&& old(self).owner is Some ==> r == Err::<bool, OrchestratorError>(
                    OrchestratorError::Unauthorized,
                )
                &&& old(self).owner is None && has_duplicate_dependency(caller, deps) ==> r == Err::<
                    bool,
                    OrchestratorError,
                >(OrchestratorError::DuplicateDependency)
                &&& old(self).owner is None && !has_duplicate_dependency(caller, deps) ==> r == Ok::<
                    bool,
                    OrchestratorError,
                >(true)
                &&& r is Err ==> *final(self) == *old(self)
                &&& r is Ok ==> forall|i: int, j: int|
                    0 <= i < j < 5 ==> dependency_list(deps)[i] != dependency_list(deps)[j]
                &&& r is Ok ==> forall|i: int| 0 <= i < 5 ==> dependency_list(deps)[i] != caller
                &&& r is Ok ==> {
                    &&& final(self).owner == Some(caller)
                    &&& final(self).dependencies == Some(deps)
                    &&& !final(self).exec_lock
                    &&& final(self).nonces@ == Map::<AccountId, u64>::empty()
                    &&& final(self).stats == Some(zero_stats())
                    &&& final(self).used_nonces == old(self).used_nonces
                    &&& final(self).audit == old(self).audit
                    &&& final(self).version == old(self).version
                }
            }),
    {
        if self.owner.is_some() {
            return Err(OrchestratorError::Unauthorized);
        }
        let deps = Dependencies { family_wallet, remittance_split, savings_goals, bill_payments, insurance };
        let addresses = [family_wallet, remittance_split, savings_goals, bill_payments, insurance];
        assert(addresses@ =~= dependency_list(deps));
        let mut i: usize = 0;
        while i < 5
            invariant
                old(self).owner is None,
                deps == (Dependencies { family_wallet, remittance_split, savings_goals, bill_payments, insurance }),
                addresses@ == dependency_list(deps),
                i <= 5,
                forall|k: int| 0 <= k < i ==> #[trigger] addresses@[k] != caller,
                forall|k: int, l: int| 0 <= k < i && k < l < 5 ==> #[trigger] addresses@[k] != #[trigger] addresses@[l],
            decreases 5 - i,
        {
            let addr_i = addresses[i];
            if addr_i == caller {
                assert(dependency_list(deps)[i as int] == caller);
                return Err(OrchestratorError::DuplicateDependency);
            }
            let mut j: usize = i + 1;
            while j < 5
                invariant
                    old(self).owner is None,
                    deps == (Dependencies { family_wallet, remittance_split, savings_goals, bill_payments, insurance }),
                    addresses@ == dependency_list(deps),
                    i < 5,
                    i + 1 <= j <= 5,
                    addr_i == addresses@[i as int],
                    forall|l: int| i < l < j ==> addresses@[i as int] != #[trigger] addresses@[l],
                decreases 5 - j,
            {
                if addr_i == addresses[j] {
                    assert(dependency_list(deps)[i as int] == dependency_list(deps)[j as int]);
                    return Err(OrchestratorError::DuplicateDependency);
                }
                j = j + 1;
            }
            i = i + 1;
        }
        self.owner = Some(caller);
        self.dependencies = Some(deps);
        self.exec_lock = false;
        self.nonces = NonceBook::new();
        self.stats = Some(ExecutionStats {
            total_executions: 0,
            successful_executions: 0,
            failed_executions: 0,
            last_execution_time: 0,
        });
        Ok(true)
    }
}


/// Whether two orchestrator states agree on everything a flow leaves alone.
pub open spec fn same_configuration(a: &Orchestrator, b: &Orchestrator) -> bool {
    &&& a.owner == b.owner
    &&& a.dependencies == b.dependencies
    &&& a.exec_lock == b.exec_lock
    &&& a.version == b.version
}

impl Orchestrator {
    /// The request-binding hash of an operation named by a short symbol.
    pub fn compute_request_hash(
        operation: &str,
        caller: AccountId,
        nonce: u64,
        amount: i128,
        deadline: u64,
    ) -> (r: u64)
        requires
            is_short_symbol(operation@),
        ensures
            r == request_hash_of(short_symbol_payload(operation@), nonce, amount, deadline),
    {
        let op_bits = symbol_payload(operation);
        let amt_lo = amount as u64;
        let amt_hi = (amount >> 64u32) as u64;
        op_bits.wrapping_add(nonce).wrapping_add(amt_lo).wrapping_add(amt_hi).wrapping_add(
            deadline,
        ).wrapping_mul(REQUEST_HASH_MULTIPLIER)
    }

    /// Appends a flow attempt to the bounded audit log.
    fn append_audit(&mut self, executor: AccountId, success: bool, now: u64)
        ensures
            final(self).audit@ == capped_push(
                old(self).audit@,
                flow_audit_entry(executor, now, success),
                MAX_AUDIT_ENTRIES as nat,
            ),
            same_configuration(final(self), old(self)),
            final(self).nonces == old(self).nonces,
            final(self).used_nonces == old(self).used_nonces,
            final(self).stats == old(self).stats,
    {
        let entry = AuditEntry { operation: OrchestratorOperation::FlowExec, executor, timestamp: now, success };
        push_capped(&mut self.audit, entry, MAX_AUDIT_ENTRIES);
    }

    /// Counts one more execution.
    fn update_execution_stats(&mut self, success: bool, now: u64)
        ensures
            final(self).stats == Some(stats_after(old(self).stats, success, now)),
            same_configuration(final(self), old(self)),
            final(self).nonces == old(self).nonces,
            final(self).used_nonces == old(self).used_nonces,
            final(self).audit == old(self).audit,
    {
        let mut stats = match self.stats {
            Some(s) => s,
            None => ExecutionStats {
                total_executions: 0,
                successful_executions: 0,
                failed_executions: 0,
                last_execution_time: 0,
            },
        };
        stats.total_executions = stats.total_executions.saturating_add(1);
        if success {
            stats.successful_executions = stats.successful_executions.saturating_add(1);
        } else {
            stats.failed_executions = stats.failed_executions.saturating_add(1);
        }
        stats.last_execution_time = now;
        self.stats = Some(stats);
    }

    /// Replay checks of a flow request: deadline window, spent nonces,
    /// sequential nonce, request hash.
    fn require_nonce_hardened(
        &self,
        address: AccountId,
        nonce: u64,
        deadline: u64,
        request_hash: u64,
        expected_hash: u64,
        now: u64,
    ) -> (r: Result<(), OrchestratorError>)
        requires
            deadline > now ==> now + MAX_DEADLINE_WINDOW_SECS <= u64::MAX,
        ensures
            r == (if deadline <= now || deadline > now + MAX_DEADLINE_WINDOW_SECS {
                Err(OrchestratorError::DeadlineExpired)
            } else if self.used_nonces.spent_of(address).contains(nonce) {
                Err(OrchestratorError::NonceAlreadyUsed)
            } else if nonce != self.nonces.nonce_of(address) {
                Err(OrchestratorError::InvalidNonce)
            } else if request_hash != expected_hash {
                Err(OrchestratorError::InvalidNonce)
            } else {
                Ok(())
            }),
    {
        if deadline <= now {
            return Err(OrchestratorError::DeadlineExpired);
        }
        if deadline > now + MAX_DEADLINE_WINDOW_SECS {
            return Err(OrchestratorError::DeadlineExpired);
        }
        if self.used_nonces.contains(address, nonce) {
            return Err(OrchestratorError::NonceAlreadyUsed);
        }
        if nonce != self.nonces.current(address) {
            return Err(OrchestratorError::InvalidNonce);
        }
        if request_hash != expected_hash {
            return Err(OrchestratorError::InvalidNonce);
        }
        Ok(())
    }

    /// Spends the account's current nonce and advances its counter;
    /// `Overflow`, with nothing changed, when the counter cannot advance.
    fn increment_nonce(&mut self, address: AccountId) -> (r: Result<(), OrchestratorError>)
        ensures
            ({
                let current = old(self).nonces.nonce_of(address);
                &&& current == u64::MAX ==> r == Err::<(), OrchestratorError>(OrchestratorError::Overflow)
                    && *final(self) == *old(self)
                &&& current < u64::MAX ==> {
                    &&& r is Ok
                    &&& final(self).nonces@ == old(self).nonces@.insert(address, (current + 1) as u64)
                    &&& final(self).used_nonces.spent_of(address) == capped_push(
                        old(self).used_nonces.spent_of(address),
                        current,
                        MAX_USED_NONCES_PER_ADDR as nat,
                    )
                    &&& forall|a: AccountId|
                        a != address ==> #[trigger] final(self).used_nonces.spent_of(a) == old(
                            self,
                        ).used_nonces.spent_of(a)
                    &&& same_configuration(final(self), old(self))
                    &&& final(self).stats == old(self).stats
                    &&& final(self).audit == old(self).audit
                }
            }),
    {
        let current = self.nonces.current(address);
        let next = match current.checked_add(1) {
            Some(n) => n,
            None => return Err(OrchestratorError::Overflow),
        };
        self.used_nonces.record(address, current, MAX_USED_NONCES_PER_ADDR);
        self.nonces.set(address, next);
        Ok(())
    }

    /// The flow's cross-contract work; currently it only requires an
    /// initialised orchestrator.
    fn execute_flow_internal(&self, executor: AccountId, amount: i128) -> (r: Result<bool, OrchestratorError>)
        ensures
            self.owner is None ==> r == Err::<bool, OrchestratorError>(OrchestratorError::Unauthorized),
            self.owner is Some ==> r == Ok::<bool, OrchestratorError>(true),
    {
        if self.owner.is_none() {
            return Err(OrchestratorError::Unauthorized);
        }
        Ok(true)
    }

    /// Runs a remittance flow with replay protection.
    ///
    /// The request is refused, in this order: `Unauthorized` before `init`;
    /// `InvalidAmount` for a non-positive amount; `ExecutionLocked` while a
    /// flow runs; `DeadlineExpired` unless `now < deadline <= now + 3600`;
    /// `NonceAlreadyUsed` for a spent nonce; `InvalidNonce` for a nonce other
    /// than the executor's current one or a request hash other than
    /// `flow_request_hash(nonce, amount, deadline)`; `Overflow` when the
    /// nonce cannot advance. A refused request changes nothing, as the host
    /// discards the writes of a call that returns an error. A successful
    /// flow spends the nonce, advances the counter by one, counts a success
    /// and audits it.
    pub fn execute_remittance_flow(
        &mut self,
        executor: AccountId,
        amount: i128,
        nonce: u64,
        deadline: u64,
        request_hash: u64,
        now: u64,
    ) -> (r: Result<bool, OrchestratorError>)
        requires
            old(self).owner is Some && amount > 0 && !old(self).exec_lock && deadline > now ==> now
                + MAX_DEADLINE_WINDOW_SECS <= u64::MAX,
        ensures
            ({
                let refusal = old(self).flow_refusal(executor, amount, nonce, deadline, request_hash, now);
                &&& r == match refusal {
                    Some(e) => Err(e),
                    None => Ok::<bool, OrchestratorError>(true),
                }
                &&& r is Err ==> *final(self) == *old(self)
                &&& r is Ok ==> {
                    &&& same_configuration(final(self), old(self))
                    &&& final(self).audit@ == capped_push(
                        old(self).audit@,
                        flow_audit_entry(executor, now, true),
                        MAX_AUDIT_ENTRIES as nat,
                    )
                    &&& final(self).used_nonces.spent_of(executor) == capped_push(
                        old(self).used_nonces.spent_of(executor),
                        nonce,
                        MAX_USED_NONCES_PER_ADDR as nat,
                    )
                    &&& forall|a: AccountId|
                        a != executor ==> #[trigger] final(self).used_nonces.spent_of(a) == old(
                            self,
                        ).used_nonces.spent_of(a)
                    &&& final(self).nonces@ == old(self).nonces@.insert(executor, (nonce + 1) as u64)
                    &&& final(self).stats == Some(stats_after(old(self).stats, true, now))
                }
            }),
    {
        if self.owner.is_none() {
            return Err(OrchestratorError::Unauthorized);
        }
        if amount <= 0 {
            return Err(OrchestratorError::InvalidAmount);
        }
        if self.exec_lock {
            return Err(OrchestratorError::ExecutionLocked);
        }
        proof {
            reveal_strlit("flow");
            assert(is_short_symbol("flow"@));
        }
        let expected_hash = Self::compute_request_hash("flow", executor, nonce, amount, deadline);
        match self.require_nonce_hardened(executor, nonce, deadline, request_hash, expected_hash, now) {
            Err(e) => return Err(e),
            Ok(()) => {},
        }
        self.exec_lock = true;
        let result = self.execute_flow_internal(executor, amount);
        self.exec_lock = false;
        match result {
            Ok(_) => {
                match self.increment_nonce(executor) {
                    Err(e) => return Err(e),
                    Ok(()) => {},
                }
                self.update_execution_stats(true, now);
                self.append_audit(executor, true, now);
                Ok(true)
            },
            Err(e) => Err(e),
        }
    }

    /// The current execution nonce of an account.
    pub fn get_nonce(&self, address: AccountId) -> (r: u64)
        ensures
            r == self.nonces.nonce_of(address),
    {
        self.nonces.current(address)
    }

    /// The execution statistics; `None` before `init`.
    pub fn get_execution_stats(&self) -> (r: Option<ExecutionStats>)
        ensures
            r == self.stats,
    {
        self.stats
    }

    /// A page of the audit log: entries `from_index ..` up to the clamped
    /// limit, or nothing when `from_index` is past the end.
    pub fn get_audit_log(&self, from_index: u32, limit: u32) -> (r: Vec<AuditEntry>)
        ensures
            r@ == self.audit_page(from_index, limit),
    {
        let len = self.audit.len();
        let cap = clamp_limit(limit);
        if from_index as usize >= len {
            return Vec::new();
        }
        let end_u32 = from_index.saturating_add(cap);
        let end = if (end_u32 as usize) < len {
            end_u32 as usize
        } else {
            len
        };
        let mut items: Vec<AuditEntry> = Vec::new();
        let mut i: usize = from_index as usize;
        while i < end
            invariant
                len == self.audit@.len(),
                from_index <= i <= end <= len,
                items@ == self.audit@.subrange(from_index as int, i as int),
            decreases end - i,
        {
            items.push(self.audit[i]);
            assert(self.audit@.subrange(from_index as int, i as int).push(self.audit@[i as int])
                =~= self.audit@.subrange(from_index as int, i + 1));
            i = i + 1;
        }
        items
    }

    /// The contract version: the stored one, or `CONTRACT_VERSION`.
    pub fn get_version(&self) -> (r: u32)
        ensures
            r == match self.version {
                Some(v) => v,
                None => CONTRACT_VERSION,
            },
    {
        match self.version {
            Some(v) => v,
            None => CONTRACT_VERSION,
        }
    }

    /// Sets the contract version; only the owner may.
    pub fn set_version(&mut self, caller: AccountId, new_version: u32) -> (r: Result<bool, OrchestratorError>)
        ensures
            old(self).owner == Some(caller) ==> r == Ok::<bool, OrchestratorError>(true) && final(self).version
                == Some(new_version),
            old(self).owner != Some(caller) ==> r == Err::<bool, OrchestratorError>(
                OrchestratorError::Unauthorized,
            ) && final(self).version == old(self).version,
            final(self).owner == old(self).owner,
            final(self).dependencies == old(self).dependencies,
            final(self).exec_lock == old(self).exec_lock,
            final(self).nonces == old(self).nonces,
            final(self).used_nonces == old(self).used_nonces,
            final(self).stats == old(self).stats,
            final(self).audit == old(self).audit,
    {
        match self.owner {
            None => Err(OrchestratorError::Unauthorized),
            Some(owner) => {
                if caller != owner {
                    return Err(OrchestratorError::Unauthorized);
                }
                self.version = Some(new_version);
                Ok(true)
            },
        }
    }
}


/// Replay law: once a flow has spent a nonce, a request that reuses that
/// nonce is refused with `NonceAlreadyUsed`, whatever its amount, deadline
/// or hash, as long as it gets past the initialisation, amount, lock and
/// deadline checks.
pub proof fn lemma_spent_nonce_is_refused(
    after: &Orchestrator,
    spent_before: Seq<u64>,
    executor: AccountId,
    amount: i128,
    nonce: u64,
    deadline: u64,
    request_hash: u64,
    now: u64,
)
    requires
        after.used_nonces.spent_of(executor) == capped_push(spent_before, nonce, MAX_USED_NONCES_PER_ADDR as nat),
        after.owner is Some,
        amount > 0,
        !after.exec_lock,
        now < deadline <= now + MAX_DEADLINE_WINDOW_SECS,
    ensures
        after.flow_refusal(executor, amount, nonce, deadline, request_hash, now) == Some(
            OrchestratorError::NonceAlreadyUsed,
        ),
{
    let spent = after.used_nonces.spent_of(executor);
    assert(spent[spent.len() - 1] == nonce);
}

/// Initialisation law: an initialised orchestrator refuses every further
/// `init`, and a flow is only ever admitted on an initialised orchestrator.
pub proof fn lemma_flows_need_initialisation(
    s: &Orchestrator,
    executor: AccountId,
    amount: i128,
    nonce: u64,
    deadline: u64,
    request_hash: u64,
    now: u64,
)
    ensures
        s.flow_refusal(executor, amount, nonce, deadline, request_hash, now) is None ==> s.owner is Some,
        s.owner is None ==> s.flow_refusal(executor, amount, nonce, deadline, request_hash, now) == Some(
            OrchestratorError::Unauthorized,
        ),
{
}

} // verus!
