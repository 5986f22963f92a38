//! Remittance split: the owner's four-way percentage split, the amounts it
//! gives for a total, replay-protected configuration changes, pausing and
//! upgrade administration, snapshot export/import with a checksum, a
//! bounded audit log, and remittance schedules.

use vstd::prelude::*;
use crate::common::{AccountId, Category, CONTRACT_VERSION};
use crate::ledger::{capped_push, push_capped, NonceBook};

verus! {

/// Version of exported snapshots.
pub const SNAPSHOT_VERSION: u32 = 1;

/// Number of audit entries kept; older ones are dropped.
pub const MAX_AUDIT_ENTRIES: u32 = 100;

/// Multiplier of the snapshot checksum.
pub const CHECKSUM_MULTIPLIER: u64 = 31;

/// Shortest interval, in seconds, of a recurring schedule (one hour).
pub const MIN_SCHEDULE_INTERVAL: u64 = 3600;

/// Longest time, in seconds, between now and a schedule's due date (365 days).
pub const MAX_SCHEDULE_LEAD_TIME: u64 = 31_536_000;

/// Most active schedules one owner may hold.
pub const MAX_SCHEDULES_PER_OWNER: u32 = 50;

/// Payload of the event published when the split is set.
#[derive(Clone, Copy, Debug, PartialEq, Eq, Structural)]
pub struct SplitInitializedEvent {
    pub spending_percent: u32,
    pub savings_percent: u32,
    pub bills_percent: u32,
    pub insurance_percent: u32,
    pub timestamp: u64,
}

/// Remittance split errors.
#[derive(Clone, Copy, Debug, PartialEq, Eq, Structural, PartialOrd, Ord)]
pub enum RemittanceSplitError {
    AlreadyInitialized,
    NotInitialized,
    PercentagesDoNotSumTo100,
    InvalidAmount,
    Overflow,
    Unauthorized,
    InvalidNonce,
    UnsupportedVersion,
    ChecksumMismatch,
    InvalidDueDate,
    ScheduleNotFound,
    ScheduleIntervalTooShort,
    ScheduleLeadTimeTooLong,
    ScheduleCapExceeded,
}

/// Wire code of a remittance split error.
pub open spec fn split_error_code(e: RemittanceSplitError) -> u32 {
    match e {
        RemittanceSplitError::AlreadyInitialized => 1,
        RemittanceSplitError::NotInitialized => 2,
        RemittanceSplitError::PercentagesDoNotSumTo100 => 3,
        RemittanceSplitError::InvalidAmount => 4,
        RemittanceSplitError::Overflow => 5,
        RemittanceSplitError::Unauthorized => 6,
        RemittanceSplitError::InvalidNonce => 7,
        RemittanceSplitError::UnsupportedVersion => 8,
        RemittanceSplitError::ChecksumMismatch => 9,
        RemittanceSplitError::InvalidDueDate => 10,
        RemittanceSplitError::ScheduleNotFound => 11,
        RemittanceSplitError::ScheduleIntervalTooShort => 12,
        RemittanceSplitError::ScheduleLeadTimeTooLong => 13,
        RemittanceSplitError::ScheduleCapExceeded => 14,
    }
}

impl RemittanceSplitError {
    /// Wire code of the error.
    pub fn code(self) -> (r: u32)
        ensures
            r == split_error_code(self),
    {
        match self {
            RemittanceSplitError::AlreadyInitialized => 1,
            RemittanceSplitError::NotInitialized => 2,
            RemittanceSplitError::PercentagesDoNotSumTo100 => 3,
            RemittanceSplitError::InvalidAmount => 4,
            RemittanceSplitError::Overflow => 5,
            RemittanceSplitError::Unauthorized => 6,
            RemittanceSplitError::InvalidNonce => 7,
            RemittanceSplitError::UnsupportedVersion => 8,
            RemittanceSplitError::ChecksumMismatch => 9,
            RemittanceSplitError::InvalidDueDate => 10,
            RemittanceSplitError::ScheduleNotFound => 11,
            RemittanceSplitError::ScheduleIntervalTooShort => 12,
            RemittanceSplitError::ScheduleLeadTimeTooLong => 13,
            RemittanceSplitError::ScheduleCapExceeded => 14,
        }
    }
}

/// The amount allocated to one category.
#[derive(Clone, Copy, Debug, PartialEq, Eq, Structural)]
pub struct Allocation {
    pub category: Category,
    pub amount: i128,
}

/// The four accounts a distribution pays into.
#[derive(Clone, Copy, Debug, PartialEq, Eq, Structural)]
pub struct AccountGroup {
    pub spending: AccountId,
    pub savings: AccountId,
    pub bills: AccountId,
    pub insurance: AccountId,
}

/// Split configuration with its owner.
#[derive(Clone, Copy, Debug, PartialEq, Eq, Structural)]
pub struct SplitConfig {
    pub owner: AccountId,
    pub spending_percent: u32,
    pub savings_percent: u32,
    pub bills_percent: u32,
    pub insurance_percent: u32,
    pub timestamp: u64,
    pub initialized: bool,
}

/// Payload of the event published when a split is calculated.
#[derive(Clone, Copy, Debug, PartialEq, Eq, Structural)]
pub struct SplitCalculatedEvent {
    pub total_amount: i128,
    pub spending_amount: i128,
    pub savings_amount: i128,
    pub bills_amount: i128,
    pub insurance_amount: i128,
    pub timestamp: u64,
}

/// Topics of the split's audit-trail events.
#[derive(Clone, Copy, Debug, PartialEq, Eq, Structural)]
pub enum SplitEvent {
    Initialized,
    Updated,
    Calculated,
}

/// Exported configuration, with a checksum over version and percentages.
#[derive(Clone, Copy, Debug, PartialEq, Eq, Structural)]
pub struct ExportSnapshot {
    pub version: u32,
    pub checksum: u64,
    pub config: SplitConfig,
}

/// Operation recorded in the split's audit log.
#[derive(Clone, Copy, Debug, PartialEq, Eq, Structural)]
pub enum SplitOperation {
    /// `init`: initialising the split.
    Init,
    /// `update`: changing the percentages.
    Update,
    /// `import`: importing a snapshot.
    Import,
    /// `distrib`: distributing funds.
    Distribute,
}

/// One audit log entry.
#[derive(Clone, Copy, Debug, PartialEq, Eq, Structural)]
pub struct AuditEntry {
    pub operation: SplitOperation,
    pub caller: AccountId,
    pub timestamp: u64,
    pub success: bool,
}

/// A schedule of automatic remittances.
#[derive(Clone, Copy, Debug, PartialEq, Eq, Structural)]
pub struct RemittanceSchedule {
    pub id: u32,
    pub owner: AccountId,
    pub amount: i128,
    pub next_due: u64,
    pub interval: u64,
    pub recurring: bool,
    pub active: bool,
    pub created_at: u64,
    pub last_executed: Option<u64>,
    pub missed_count: u32,
}

/// Topics of schedule events.
#[derive(Clone, Copy, Debug, PartialEq, Eq, Structural)]
pub enum ScheduleEvent {
    Created,
    Executed,
    Missed,
    Modified,
    Cancelled,
}

/// The remittance split contract's state. Schedule ids are assigned
/// 1, 2, 3, ... and the schedule with id `k` is stored at position `k - 1`.
pub struct RemittanceSplit {
    pub config: Option<SplitConfig>,
    pub pause_admin: Option<AccountId>,
    pub paused: bool,
    pub version: Option<u32>,
    pub upgrade_admin: Option<AccountId>,
    pub nonces: NonceBook,
    pub audit: Vec<AuditEntry>,
    pub schedules: Vec<RemittanceSchedule>,
    pub next_schedule_id: u32,
}

// ---------------------------------------------------------------------------
// Specifications
// ---------------------------------------------------------------------------

/// Sum of four percentages.
pub open spec fn percent_sum(a: u32, b: u32, c: u32, d: u32) -> int {
    a + b + c + d
}

/// The percentages of a configuration, in category order.
pub open spec fn config_percentages(c: SplitConfig) -> Seq<u32> {
    seq![c.spending_percent, c.savings_percent, c.bills_percent, c.insurance_percent]
}

/// The split used before any configuration exists.
pub open spec fn default_percentages() -> Seq<u32> {
    seq![50u32, 30u32, 15u32, 5u32]
}

/// One category's share: `total * percent / 100`, rounded down.
pub open spec fn share(total: int, percent: int) -> int {
    total * percent / 100
}

/// The outcome of splitting a total by percentages: spending, savings and
/// bills get their rounded-down shares and insurance the remainder.
/// `InvalidAmount` for a non-positive total, `Overflow` when a share's
/// product does not fit in `i128`.
pub open spec fn split_of(total: i128, p: Seq<u32>) -> Result<Seq<i128>, RemittanceSplitError> {
    if total <= 0 {
        Err(RemittanceSplitError::InvalidAmount)
    } else if total * p[0] > i128::MAX || total * p[1] > i128::MAX || total * p[2] > i128::MAX {
        Err(RemittanceSplitError::Overflow)
    } else {
        let a = share(total as int, p[0] as int);
        let b = share(total as int, p[1] as int);
        let c = share(total as int, p[2] as int);
        Ok(seq![a as i128, b as i128, c as i128, (total - a - b - c) as i128])
    }
}

/// Snapshot checksum: `(version + percentages) * 31`, wrapping at 2^64.
pub open spec fn checksum_of(version: u32, c: SplitConfig) -> u64 {
    let s1 = vstd::wrapping::u64_specs::wrapping_add(version as u64, c.spending_percent as u64);
    let s2 = vstd::wrapping::u64_specs::wrapping_add(s1, c.savings_percent as u64);
    let s3 = vstd::wrapping::u64_specs::wrapping_add(s2, c.bills_percent as u64);
    let s4 = vstd::wrapping::u64_specs::wrapping_add(s3, c.insurance_percent as u64);
    vstd::wrapping::u64_specs::wrapping_mul(s4, CHECKSUM_MULTIPLIER)
}

/// An audit entry.
pub open spec fn audit_entry(op: SplitOperation, caller: AccountId, now: u64, success: bool) -> AuditEntry {
    AuditEntry { operation: op, caller, timestamp: now, success }
}

impl RemittanceSplit {
    /// The audit log stays bounded, configured percentages sum to 100, and
    /// schedules are stored in id order with ids 1, 2, ..., `next_schedule_id`.
    pub open spec fn wf(&self) -> bool {
        &&& self.audit@.len() <= MAX_AUDIT_ENTRIES
        &&& (self.config matches Some(c) ==> percent_sum(
            c.spending_percent,
            c.savings_percent,
            c.bills_percent,
            c.insurance_percent,
        ) == 100)
        &&& self.schedules@.len() == self.next_schedule_id
        &&& forall|i: int| 0 <= i < self.schedules@.len() ==> (#[trigger] self.schedules@[i]).id == i + 1
    }

    /// The percentages in force.
    pub open spec fn percentages(&self) -> Seq<u32> {
        match self.config {
            Some(c) => config_percentages(c),
            None => default_percentages(),
        }
    }

    /// The schedule with the given id, if any.
    pub open spec fn schedule(&self, id: u32) -> Option<RemittanceSchedule> {
        if 1 <= id <= self.schedules@.len() {
            Some(self.schedules@[id - 1])
        } else {
            None
        }
    }

    /// The account allowed to pause and unpause: the pause admin, or the owner.
    pub open spec fn pause_authority(&self) -> Option<AccountId> {
        match self.config {
            None => None,
            Some(c) => match self.pause_admin {
                Some(a) => Some(a),
                None => Some(c.owner),
            },
        }
    }

    /// The account allowed to set the version: the upgrade admin, or the owner.
    pub open spec fn upgrade_authority(&self) -> Option<AccountId> {
        match self.config {
            None => None,
            Some(c) => match self.upgrade_admin {
                Some(a) => Some(a),
                None => Some(c.owner),
            },
        }
    }

    /// The state with one entry appended to the audit log.
    pub open spec fn audited(&self, log: Seq<AuditEntry>, entry: AuditEntry) -> bool {
        self.audit@ == capped_push(log, entry, MAX_AUDIT_ENTRIES as nat)
    }

    /// What `import_snapshot` answers: the first failed check in the order
    /// nonce, version, checksum, initialisation, ownership, percentages,
    /// nonce overflow; `Ok(true)` when all pass.
    pub open spec fn import_result(&self, caller: AccountId, nonce: u64, snapshot: ExportSnapshot) -> Result<
        bool,
        RemittanceSplitError,
    > {
        let c = snapshot.config;
        if nonce != self.nonces.nonce_of(caller) {
            Err(RemittanceSplitError::InvalidNonce)
        } else if snapshot.version != SNAPSHOT_VERSION {
            Err(RemittanceSplitError::UnsupportedVersion)
        } else if snapshot.checksum != checksum_of(snapshot.version, c) {
            Err(RemittanceSplitError::ChecksumMismatch)
        } else if self.config is None {
            Err(RemittanceSplitError::NotInitialized)
        } else if self.config->Some_0.owner != caller {
            Err(RemittanceSplitError::Unauthorized)
        } else if percent_sum(c.spending_percent, c.savings_percent, c.bills_percent, c.insurance_percent) != 100 {
            Err(RemittanceSplitError::PercentagesDoNotSumTo100)
        } else if nonce == u64::MAX {
            Err(RemittanceSplitError::Overflow)
        } else {
            Ok(true)
        }
    }
}

/// Two states agree on everything except possibly the configuration,
/// nonces and audit log.
pub open spec fn same_admin_and_schedules(a: &RemittanceSplit, b: &RemittanceSplit) -> bool {
    &&& a.pause_admin == b.pause_admin
    &&& a.paused == b.paused
    &&& a.version == b.version
    &&& a.upgrade_admin == b.upgrade_admin
    &&& a.schedules == b.schedules
    &&& a.next_schedule_id == b.next_schedule_id
}

/// Floor shares of percentages summing to at most 100 never exceed the total.
pub proof fn lemma_shares_fit(total: int, p0: int, p1: int, p2: int)
    requires
        total > 0,
        p0 >= 0,
        p1 >= 0,
        p2 >= 0,
        p0 + p1 + p2 <= 100,
    ensures
        0 <= share(total, p0),
        0 <= share(total, p1),
        0 <= share(total, p2),
        share(total, p0) + share(total, p1) + share(total, p2) <= total,
{
    assert(total * p0 / 100 * 100 <= total * p0) by (nonlinear_arith)
        requires
            total > 0,
            p0 >= 0,
    ;
    assert(total * p1 / 100 * 100 <= total * p1) by (nonlinear_arith)
        requires
            total > 0,
            p1 >= 0,
    ;
    assert(total * p2 / 100 * 100 <= total * p2) by (nonlinear_arith)
        requires
            total > 0,
            p2 >= 0,
    ;
    assert(total * p0 + total * p1 + total * p2 <= total * 100) by (nonlinear_arith)
        requires
            total > 0,
            p0 >= 0,
            p1 >= 0,
            p2 >= 0,
            p0 + p1 + p2 <= 100,
    ;
    assert(0 <= total * p0 / 100) by (nonlinear_arith)
        requires
            total > 0,
            p0 >= 0,
    ;
    assert(0 <= total * p1 / 100) by (nonlinear_arith)
        requires
            total > 0,
            p1 >= 0,
    ;
    assert(0 <= total * p2 / 100) by (nonlinear_arith)
        requires
            total > 0,
            p2 >= 0,
    ;
}

/// Conservation law of the split: for percentages summing to 100 and a
/// positive total, every successful split hands out exactly the total, no
/// amount is negative, and each of the first three is the rounded-down share.
pub proof fn lemma_split_conserves_total(total: i128, p: Seq<u32>)
    requires
        p.len() == 4,
        percent_sum(p[0], p[1], p[2], p[3]) == 100,
        split_of(total, p) is Ok,
    ensures
        ({
            let a = split_of(total, p)->Ok_0;
            &&& a.len() == 4
            &&& a[0] + a[1] + a[2] + a[3] == total
            &&& forall|i: int| 0 <= i < 4 ==> a[i] >= 0
            &&& a[0] == share(total as int, p[0] as int)
            &&& a[1] == share(total as int, p[1] as int)
            &&& a[2] == share(total as int, p[2] as int)
        }),
{
    lemma_shares_fit(total as int, p[0] as int, p[1] as int, p[2] as int);
}


/// The array form of the split (from which a distribution's transfers are
/// made) and the
/// vector form (what `calculate_split` reports) agree: on the same state and
/// total, results meeting the two contracts hold the same four amounts in
/// the same order, or fail with the same error.
pub proof fn lemma_split_forms_agree(
    s: &RemittanceSplit,
    total: i128,
    amounts: Result<[i128; 4], RemittanceSplitError>,
    reported: Result<Vec<i128>, RemittanceSplitError>,
)
    requires
        match split_of(total, s.percentages()) {
            Ok(a) => amounts is Ok && amounts->Ok_0@ == a,
            Err(e) => amounts == Err::<[i128; 4], RemittanceSplitError>(e),
        },
        match split_of(total, s.percentages()) {
            Ok(a) => reported is Ok && reported->Ok_0@ == a,
            Err(e) => reported == Err::<Vec<i128>, RemittanceSplitError>(e),
        },
    ensures
        amounts is Ok <==> reported is Ok,
        amounts is Ok ==> amounts->Ok_0@ == reported->Ok_0@,
        amounts is Err ==> amounts->Err_0 == reported->Err_0,
{
}

/// The plan with one more transfer, kept only when its amount is positive.
pub open spec fn with_transfer(plan: Seq<(AccountId, i128)>, to: AccountId, amount: i128) -> Seq<
    (AccountId, i128),
> {
    if amount > 0 {
        plan.push((to, amount))
    } else {
        plan
    }
}

/// The transfers of a distribution: the spending, savings, bills and
/// insurance accounts with their amounts, in that order, leaving out every
/// amount that is not positive.
pub open spec fn transfer_plan(accounts: AccountGroup, amounts: Seq<i128>) -> Seq<(AccountId, i128)> {
    with_transfer(
        with_transfer(
            with_transfer(with_transfer(Seq::empty(), accounts.spending, amounts[0]), accounts.savings, amounts[1]),
            accounts.bills,
            amounts[2],
        ),
        accounts.insurance,
        amounts[3],
    )
}

/// Adds a transfer to a plan when its amount is positive.
fn push_transfer(plan: &mut Vec<(AccountId, i128)>, to: AccountId, amount: i128)
    ensures
        final(plan)@ == with_transfer(old(plan)@, to, amount),
{
    if amount > 0 {
        plan.push((to, amount));
    }
}

// ---------------------------------------------------------------------------
// Administration
// ---------------------------------------------------------------------------

impl RemittanceSplit {
    /// A fresh contract: no configuration, not paused, no schedules.
    pub fn new() -> (r: RemittanceSplit)
        ensures
            r.wf(),
            r.config is None,
            r.pause_admin is None,
            !r.paused,
            r.version is None,
            r.upgrade_admin is None,
            r.nonces@ == Map::<AccountId, u64>::empty(),
            r.audit@ == Seq::<AuditEntry>::empty(),
            r.schedules@ == Seq::<RemittanceSchedule>::empty(),
            r.next_schedule_id == 0,
    {
        RemittanceSplit {
            config: None,
            pause_admin: None,
            paused: false,
            version: None,
            upgrade_admin: None,
            nonces: NonceBook::new(),
            audit: Vec::new(),
            schedules: Vec::new(),
            next_schedule_id: 0,
        }
    }

    /// Whether the stored state has the shape the contract maintains.
    pub fn is_well_formed(&self) -> (r: bool)
        ensures
            r == self.wf(),
    {
        if self.audit.len() > MAX_AUDIT_ENTRIES as usize {
            return false;
        }
        match self.config {
            Some(c) => {
                let total = c.spending_percent as u64 + c.savings_percent as u64 + c.bills_percent as u64
                    + c.insurance_percent as u64;
                if total != 100 {
                    return false;
                }
            },
            None => {},
        }
        if self.schedules.len() != self.next_schedule_id as usize {
            return false;
        }
        let n = self.schedules.len();
        let mut i: usize = 0;
        while i < n
            invariant
                n == self.schedules@.len(),
                i <= n,
                forall|j: int| 0 <= j < i ==> (#[trigger] self.schedules@[j]).id == j + 1,
            decreases n - i,
        {
            if self.schedules[i].id as usize != i + 1 {
                return false;
            }
            i = i + 1;
        }
        true
    }

    /// Sets the pause administrator; only the owner may.
    pub fn set_pause_admin(&mut self, caller: AccountId, new_admin: AccountId) -> (r: Result<(), RemittanceSplitError>)
        requires
            old(self).wf(),
        ensures
            final(self).wf(),
            old(self).config is None ==> r == Err::<(), RemittanceSplitError>(RemittanceSplitError::NotInitialized),
            old(self).config matches Some(c) && c.owner != caller ==> r == Err::<(), RemittanceSplitError>(
                RemittanceSplitError::Unauthorized,
            ),
            old(self).config matches Some(c) && c.owner == caller ==> r is Ok,
            r is Ok ==> *final(self) == (RemittanceSplit { pause_admin: Some(new_admin), ..*old(self) }),
            r is Err ==> *final(self) == *old(self),
    {
        match self.config {
            None => Err(RemittanceSplitError::NotInitialized),
            Some(c) => {
                if c.owner != caller {
                    return Err(RemittanceSplitError::Unauthorized);
                }
                self.pause_admin = Some(new_admin);
                Ok(())
            },
        }
    }

    /// Pauses configuration changes; only the pause authority may.
    pub fn pause(&mut self, caller: AccountId) -> (r: Result<(), RemittanceSplitError>)
        requires
            old(self).wf(),
        ensures
            final(self).wf(),
            old(self).config is None ==> r == Err::<(), RemittanceSplitError>(RemittanceSplitError::NotInitialized),
            old(self).config is Some && old(self).pause_authority() != Some(caller) ==> r == Err::<
                (),
                RemittanceSplitError,
            >(RemittanceSplitError::Unauthorized),
            old(self).pause_authority() == Some(caller) ==> r is Ok,
            r is Ok ==> *final(self) == (RemittanceSplit { paused: true, ..*old(self) }),
            r is Err ==> *final(self) == *old(self),
    {
        let config = match self.config {
            None => return Err(RemittanceSplitError::NotInitialized),
            Some(c) => c,
        };
        let admin = match self.pause_admin {
            Some(a) => a,
            None => config.owner,
        };
        if admin != caller {
            return Err(RemittanceSplitError::Unauthorized);
        }
        self.paused = true;
        Ok(())
    }

    /// Resumes configuration changes; only the pause authority may.
    pub fn unpause(&mut self, caller: AccountId) -> (r: Result<(), RemittanceSplitError>)
        requires
            old(self).wf(),
        ensures
            final(self).wf(),
            old(self).config is None ==> r == Err::<(), RemittanceSplitError>(RemittanceSplitError::NotInitialized),
            old(self).config is Some && old(self).pause_authority() != Some(caller) ==> r == Err::<
                (),
                RemittanceSplitError,
            >(RemittanceSplitError::Unauthorized),
            old(self).pause_authority() == Some(caller) ==> r is Ok,
            r is Ok ==> *final(self) == (RemittanceSplit { paused: false, ..*old(self) }),
            r is Err ==> *final(self) == *old(self),
    {
        let config = match self.config {
            None => return Err(RemittanceSplitError::NotInitialized),
            Some(c) => c,
        };
        let admin = match self.pause_admin {
            Some(a) => a,
            None => config.owner,
        };
        if admin != caller {
            return Err(RemittanceSplitError::Unauthorized);
        }
        self.paused = false;
        Ok(())
    }

    /// Whether configuration changes are paused.
    pub fn is_paused(&self) -> (r: bool)
        ensures
            r == self.paused,
    {
        self.paused
    }

    /// The contract version: the stored one, or `CONTRACT_VERSION`.
    pub fn get_version(&self) -> (r: u32)
        ensures
            r == match self.version {
                Some(v) => v,
                None => CONTRACT_VERSION,
            },
    {
        match self.version {
            Some(v) => v,
            None => CONTRACT_VERSION,
        }
    }

    /// Sets the upgrade administrator; only the owner may.
    pub fn set_upgrade_admin(&mut self, caller: AccountId, new_admin: AccountId) -> (r: Result<(), RemittanceSplitError>)
        requires
            old(self).wf(),
        ensures
            final(self).wf(),
            old(self).config is None ==> r == Err::<(), RemittanceSplitError>(RemittanceSplitError::NotInitialized),
            old(self).config matches Some(c) && c.owner != caller ==> r == Err::<(), RemittanceSplitError>(
                RemittanceSplitError::Unauthorized,
            ),
            old(self).config matches Some(c) && c.owner == caller ==> r is Ok,
            r is Ok ==> *final(self) == (RemittanceSplit { upgrade_admin: Some(new_admin), ..*old(self) }),
            r is Err ==> *final(self) == *old(self),
    {
        match self.config {
            None => Err(RemittanceSplitError::NotInitialized),
            Some(c) => {
                if c.owner != caller {
                    return Err(RemittanceSplitError::Unauthorized);
                }
                self.upgrade_admin = Some(new_admin);
                Ok(())
            },
        }
    }

    /// Sets the contract version; only the upgrade authority may.
    pub fn set_version(&mut self, caller: AccountId, new_version: u32) -> (r: Result<(), RemittanceSplitError>)
        requires
            old(self).wf(),
        ensures
            final(self).wf(),
            old(self).config is None ==> r == Err::<(), RemittanceSplitError>(RemittanceSplitError::NotInitialized),
            old(self).config is Some && old(self).upgrade_authority() != Some(caller) ==> r == Err::<
                (),
                RemittanceSplitError,
            >(RemittanceSplitError::Unauthorized),
            old(self).upgrade_authority() == Some(caller) ==> r is Ok,
            r is Ok ==> *final(self) == (RemittanceSplit { version: Some(new_version), ..*old(self) }),
            r is Err ==> *final(self) == *old(self),
    {
        let config = match self.config {
            None => return Err(RemittanceSplitError::NotInitialized),
            Some(c) => c,
        };
        let admin = match self.upgrade_admin {
            Some(a) => a,
            None => config.owner,
        };
        if admin != caller {
            return Err(RemittanceSplitError::Unauthorized);
        }
        self.version = Some(new_version);
        Ok(())
    }

    /// The current nonce of an account.
    pub fn get_nonce(&self, address: AccountId) -> (r: u64)
        ensures
            r == self.nonces.nonce_of(address),
    {
        self.nonces.current(address)
    }

    /// The configuration, if the split was initialised.
    pub fn get_config(&self) -> (r: Option<SplitConfig>)
        ensures
            r == self.config,
    {
        self.config
    }

    /// The percentages in force: the configured ones, or 50/30/15/5.
    pub fn get_split(&self) -> (r: Vec<u32>)
        ensures
            r@ == self.percentages(),
    {
        let r = match self.config {
            Some(c) => vec![c.spending_percent, c.savings_percent, c.bills_percent, c.insurance_percent],
            None => vec![50u32, 30u32, 15u32, 5u32],
        };
        assert(r@ =~= self.percentages());
        r
    }
}


// ---------------------------------------------------------------------------
// Split configuration and calculation
// ---------------------------------------------------------------------------

impl RemittanceSplit {
    /// Appends an entry with the given outcome to the bounded audit log.
    fn push_audit(&mut self, operation: SplitOperation, caller: AccountId, now: u64, success: bool)
        requires
            old(self).wf(),
        ensures
            final(self).wf(),
            final(self).audited(old(self).audit@, audit_entry(operation, caller, now, success)),
            final(self).config == old(self).config,
            final(self).nonces == old(self).nonces,
            same_admin_and_schedules(final(self), old(self)),
    {
        let entry = AuditEntry { operation, caller, timestamp: now, success };
        push_capped(&mut self.audit, entry, MAX_AUDIT_ENTRIES as usize);
    }

    /// Advances an account's nonce by one.
    fn increment_nonce(&mut self, address: AccountId) -> (r: Result<(), RemittanceSplitError>)
        requires
            old(self).wf(),
        ensures
            final(self).wf(),
            old(self).nonces.nonce_of(address) == u64::MAX ==> r == Err::<(), RemittanceSplitError>(
                RemittanceSplitError::Overflow,
            ) && *final(self) == *old(self),
            old(self).nonces.nonce_of(address) < u64::MAX ==> r is Ok && final(self).nonces@ == old(
                self,
            ).nonces@.insert(address, (old(self).nonces.nonce_of(address) + 1) as u64),
            final(self).config == old(self).config,
            final(self).audit == old(self).audit,
            same_admin_and_schedules(final(self), old(self)),
    {
        let current = self.nonces.current(address);
        if current == u64::MAX {
            return Err(RemittanceSplitError::Overflow);
        }
        self.nonces.set(address, current + 1);
        Ok(())
    }

    /// Initialises the split for `owner` with the given percentages.
    ///
    /// Refused, in order: `Unauthorized` while paused; `InvalidNonce` unless
    /// `nonce` is the owner's current nonce; `AlreadyInitialized` once a
    /// configuration exists; `PercentagesDoNotSumTo100`; `Overflow` when the
    /// nonce cannot advance. A refusal changes nothing, as the host discards
    /// the writes of a call that returns an error. Success stores the
    /// configuration, advances the owner's nonce and is audited.
    pub fn initialize_split(
        &mut self,
        owner: AccountId,
        nonce: u64,
        spending_percent: u32,
        savings_percent: u32,
        bills_percent: u32,
        insurance_percent: u32,
        now: u64,
    ) -> (r: Result<bool, RemittanceSplitError>)
        requires
            old(self).wf(),
        ensures
            final(self).wf(),
            ({
                let total = percent_sum(spending_percent, savings_percent, bills_percent, insurance_percent);
                let cfg = SplitConfig {
                    owner,
                    spending_percent,
                    savings_percent,
                    bills_percent,
                    insurance_percent,
                    timestamp: now,
                    initialized: true,
                };
                &&& r == if old(self).paused {
                    Err(RemittanceSplitError::Unauthorized)
                } else if nonce != old(self).nonces.nonce_of(owner) {
                    Err(RemittanceSplitError::InvalidNonce)
                } else if old(self).config is Some {
                    Err(RemittanceSplitError::AlreadyInitialized)
                } else if total != 100 {
                    Err(RemittanceSplitError::PercentagesDoNotSumTo100)
                } else if nonce == u64::MAX {
                    Err(RemittanceSplitError::Overflow)
                } else {
                    Ok::<bool, RemittanceSplitError>(true)
                }
                &&& r is Err ==> *final(self) == *old(self)
                &&& r is Ok ==> {
                    &&& same_admin_and_schedules(final(self), old(self))
                    &&& final(self).config == Some(cfg)
                    &&& final(self).nonces@ == old(self).nonces@.insert(owner, (nonce + 1) as u64)
                    &&& final(self).audited(old(self).audit@, audit_entry(SplitOperation::Init, owner, now, true))
                }
            }),
    {
        if self.paused {
            return Err(RemittanceSplitError::Unauthorized);
        }
        if nonce != self.nonces.current(owner) {
            return Err(RemittanceSplitError::InvalidNonce);
        }
        if self.config.is_some() {
            return Err(RemittanceSplitError::AlreadyInitialized);
        }
        let total = spending_percent as u64 + savings_percent as u64 + bills_percent as u64
            + insurance_percent as u64;
        if total != 100 {
            return Err(RemittanceSplitError::PercentagesDoNotSumTo100);
        }
        if nonce == u64::MAX {
            return Err(RemittanceSplitError::Overflow);
        }
        self.config = Some(SplitConfig {
            owner,
            spending_percent,
            savings_percent,
            bills_percent,
            insurance_percent,
            timestamp: now,
            initialized: true,
        });
        match self.increment_nonce(owner) {
            Err(e) => return Err(e),
            Ok(()) => {},
        }
        self.push_audit(SplitOperation::Init, owner, now, true);
        Ok(true)
    }

    /// Changes the percentages; only the owner may.
    ///
    /// Refused, in order: `Unauthorized` while paused; `InvalidNonce` unless
    /// `nonce` is the caller's current nonce; `NotInitialized`;
    /// `Unauthorized` for a caller other than the owner;
    /// `PercentagesDoNotSumTo100`. A refusal changes nothing. Success
    /// changes only the four percentages; the nonce does not advance.
    pub fn update_split(
        &mut self,
        caller: AccountId,
        nonce: u64,
        spending_percent: u32,
        savings_percent: u32,
        bills_percent: u32,
        insurance_percent: u32,
        now: u64,
    ) -> (r: Result<bool, RemittanceSplitError>)
        requires
            old(self).wf(),
        ensures
            final(self).wf(),
            ({
                let total = percent_sum(spending_percent, savings_percent, bills_percent, insurance_percent);
                &&& r == if old(self).paused {
                    Err(RemittanceSplitError::Unauthorized)
                } else if nonce != old(self).nonces.nonce_of(caller) {
                    Err(RemittanceSplitError::InvalidNonce)
                } else if old(self).config is None {
                    Err(RemittanceSplitError::NotInitialized)
                } else if old(self).config->Some_0.owner != caller {
                    Err(RemittanceSplitError::Unauthorized)
                } else if total != 100 {
                    Err(RemittanceSplitError::PercentagesDoNotSumTo100)
                } else {
                    Ok::<bool, RemittanceSplitError>(true)
                }
                &&& r is Err ==> *final(self) == *old(self)
                &&& r is Ok ==> *final(self) == (RemittanceSplit {
                    config: Some(
                        SplitConfig {
                            spending_percent,
                            savings_percent,
                            bills_percent,
                            insurance_percent,
                            ..old(self).config->Some_0
                        },
                    ),
                    ..*old(self)
                })
            }),
    {
        if self.paused {
            return Err(RemittanceSplitError::Unauthorized);
        }
        if nonce != self.nonces.current(caller) {
            return Err(RemittanceSplitError::InvalidNonce);
        }
        let mut config = match self.config {
            None => return Err(RemittanceSplitError::NotInitialized),
            Some(c) => c,
        };
        if config.owner != caller {
            return Err(RemittanceSplitError::Unauthorized);
        }
        let total = spending_percent as u64 + savings_percent as u64 + bills_percent as u64
            + insurance_percent as u64;
        if total != 100 {
            return Err(RemittanceSplitError::PercentagesDoNotSumTo100);
        }
        config.spending_percent = spending_percent;
        config.savings_percent = savings_percent;
        config.bills_percent = bills_percent;
        config.insurance_percent = insurance_percent;
        self.config = Some(config);
        Ok(true)
    }

    /// The four amounts a total splits into under the percentages in force.
    fn calculate_split_amounts(&self, total_amount: i128) -> (r: Result<[i128; 4], RemittanceSplitError>)
        requires
            self.wf(),
        ensures
            match split_of(total_amount, self.percentages()) {
                Ok(a) => r is Ok && r->Ok_0@ == a,
                Err(e) => r == Err::<[i128; 4], RemittanceSplitError>(e),
            },
    {
        if total_amount <= 0 {
            return Err(RemittanceSplitError::InvalidAmount);
        }
        let (p0, p1, p2, p3) = match self.config {
            Some(c) => (c.spending_percent, c.savings_percent, c.bills_percent, c.insurance_percent),
            None => (50u32, 30u32, 15u32, 5u32),
        };
        assert(self.percentages() =~= seq![p0, p1, p2, p3]);
        let spending = match total_amount.checked_mul(p0 as i128) {
            Some(n) => n / 100,
            None => return Err(RemittanceSplitError::Overflow),
        };
        let savings = match total_amount.checked_mul(p1 as i128) {
            Some(n) => n / 100,
            None => return Err(RemittanceSplitError::Overflow),
        };
        let bills = match total_amount.checked_mul(p2 as i128) {
            Some(n) => n / 100,
            None => return Err(RemittanceSplitError::Overflow),
        };
        proof {
            lemma_shares_fit(total_amount as int, p0 as int, p1 as int, p2 as int);
        }
        let insurance = total_amount - spending - savings - bills;
        let r = [spending, savings, bills, insurance];
        assert(r@ =~= split_of(total_amount, self.percentages())->Ok_0);
        Ok(r)
    }

    /// Splits a total into spending, savings, bills and insurance amounts:
    /// the first three are the rounded-down percentage shares and insurance
    /// receives the remainder. `InvalidAmount` for a non-positive total,
    /// `Overflow` when a share does not fit.
    pub fn calculate_split(&self, total_amount: i128) -> (r: Result<Vec<i128>, RemittanceSplitError>)
        requires
            self.wf(),
        ensures
            match split_of(total_amount, self.percentages()) {
                Ok(a) => r is Ok && r->Ok_0@ == a,
                Err(e) => r == Err::<Vec<i128>, RemittanceSplitError>(e),
            },
    {
        match self.calculate_split_amounts(total_amount) {
            Err(e) => Err(e),
            Ok(a) => {
                let v = vec![a[0], a[1], a[2], a[3]];
                assert(v@ =~= a@);
                Ok(v)
            },
        }
    }

    /// The split as labelled allocations, in category order.
    pub fn get_split_allocations(&self, total_amount: i128) -> (r: Result<Vec<Allocation>, RemittanceSplitError>)
        requires
            self.wf(),
        ensures
            match split_of(total_amount, self.percentages()) {
                Ok(a) => r is Ok && r->Ok_0@ == seq![
                    Allocation { category: Category::Spending, amount: a[0] },
                    Allocation { category: Category::Savings, amount: a[1] },
                    Allocation { category: Category::Bills, amount: a[2] },
                    Allocation { category: Category::Insurance, amount: a[3] },
                ],
                Err(e) => r == Err::<Vec<Allocation>, RemittanceSplitError>(e),
            },
    {
        match self.calculate_split_amounts(total_amount) {
            Err(e) => Err(e),
            Ok(a) => {
                let v = vec![
                    Allocation { category: Category::Spending, amount: a[0] },
                    Allocation { category: Category::Savings, amount: a[1] },
                    Allocation { category: Category::Bills, amount: a[2] },
                    Allocation { category: Category::Insurance, amount: a[3] },
                ];
                assert(v@ =~= seq![
                    Allocation { category: Category::Spending, amount: a[0] },
                    Allocation { category: Category::Savings, amount: a[1] },
                    Allocation { category: Category::Bills, amount: a[2] },
                    Allocation { category: Category::Insurance, amount: a[3] },
                ]);
                Ok(v)
            },
        }
    }

    /// Prepares a distribution of `total_amount` from `from` to the four
    /// accounts: validates it, advances the sender's nonce, audits it, and
    /// returns the transfers to make, in category order, with every amount
    /// that is not positive left out.
    ///
    /// Refused, in order: `InvalidAmount` for a non-positive total;
    /// `InvalidNonce` unless `nonce` is the sender's current nonce;
    /// `Overflow` when a share does not fit or the nonce cannot advance. A
    /// refusal changes nothing.
    pub fn distribute_usdc(
        &mut self,
        from: AccountId,
        nonce: u64,
        accounts: AccountGroup,
        total_amount: i128,
        now: u64,
    ) -> (r: Result<Vec<(AccountId, i128)>, RemittanceSplitError>)
        requires
            old(self).wf(),
        ensures
            final(self).wf(),
            ({
                let split = split_of(total_amount, old(self).percentages());
                &&& total_amount <= 0 ==> r == Err::<Vec<(AccountId, i128)>, RemittanceSplitError>(
                    RemittanceSplitError::InvalidAmount,
                )
                &&& total_amount > 0 && nonce != old(self).nonces.nonce_of(from) ==> r == Err::<
                    Vec<(AccountId, i128)>,
                    RemittanceSplitError,
                >(RemittanceSplitError::InvalidNonce)
                &&& total_amount > 0 && nonce == old(self).nonces.nonce_of(from) && (split is Err || nonce
                    == u64::MAX) ==> r == Err::<Vec<(AccountId, i128)>, RemittanceSplitError>(
                    RemittanceSplitError::Overflow,
                )
                &&& total_amount > 0 && nonce == old(self).nonces.nonce_of(from) && split is Ok && nonce
                    < u64::MAX ==> r is Ok && r->Ok_0@ == transfer_plan(accounts, split->Ok_0)
                &&& r is Err ==> *final(self) == *old(self)
                &&& r is Ok ==> {
                    &&& same_admin_and_schedules(final(self), old(self))
                    &&& final(self).config == old(self).config
                    &&& final(self).nonces@ == old(self).nonces@.insert(from, (nonce + 1) as u64)
                    &&& final(self).audited(
                        old(self).audit@,
                        audit_entry(SplitOperation::Distribute, from, now, true),
                    )
                }
            }),
    {
        if total_amount <= 0 {
            return Err(RemittanceSplitError::InvalidAmount);
        }
        if nonce != self.nonces.current(from) {
            return Err(RemittanceSplitError::InvalidNonce);
        }
        let amounts = match self.calculate_split_amounts(total_amount) {
            Err(e) => return Err(e),
            Ok(a) => a,
        };
        match self.increment_nonce(from) {
            Err(e) => return Err(e),
            Ok(()) => {},
        }
        self.push_audit(SplitOperation::Distribute, from, now, true);
        let mut plan: Vec<(AccountId, i128)> = Vec::new();
        push_transfer(&mut plan, accounts.spending, amounts[0]);
        push_transfer(&mut plan, accounts.savings, amounts[1]);
        push_transfer(&mut plan, accounts.bills, amounts[2]);
        push_transfer(&mut plan, accounts.insurance, amounts[3]);
        Ok(plan)
    }
}


// ---------------------------------------------------------------------------
// Snapshots and audit log
// ---------------------------------------------------------------------------

impl RemittanceSplit {
    /// Snapshot checksum over the version and the four percentages.
    pub fn compute_checksum(version: u32, config: &SplitConfig) -> (r: u64)
        ensures
            r == checksum_of(version, *config),
    {
        let v = version as u64;
        let s = config.spending_percent as u64;
        let g = config.savings_percent as u64;
        let b = config.bills_percent as u64;
        let i = config.insurance_percent as u64;
        v.wrapping_add(s).wrapping_add(g).wrapping_add(b).wrapping_add(i).wrapping_mul(CHECKSUM_MULTIPLIER)
    }

    /// Exports the configuration with its checksum; only the owner may.
    pub fn export_snapshot(&self, caller: AccountId) -> (r: Result<Option<ExportSnapshot>, RemittanceSplitError>)
        ensures
            self.config is None ==> r == Err::<Option<ExportSnapshot>, RemittanceSplitError>(
                RemittanceSplitError::NotInitialized,
            ),
            self.config matches Some(c) && c.owner != caller ==> r == Err::<
                Option<ExportSnapshot>,
                RemittanceSplitError,
            >(RemittanceSplitError::Unauthorized),
            self.config matches Some(c) && c.owner == caller ==> r == Ok::<
                Option<ExportSnapshot>,
                RemittanceSplitError,
            >(
                Some(
                    ExportSnapshot {
                        version: SNAPSHOT_VERSION,
                        checksum: checksum_of(SNAPSHOT_VERSION, self.config->Some_0),
                        config: self.config->Some_0,
                    },
                ),
            ),
    {
        let config = match self.config {
            None => return Err(RemittanceSplitError::NotInitialized),
            Some(c) => c,
        };
        if config.owner != caller {
            return Err(RemittanceSplitError::Unauthorized);
        }
        let checksum = Self::compute_checksum(SNAPSHOT_VERSION, &config);
        Ok(Some(ExportSnapshot { version: SNAPSHOT_VERSION, checksum, config }))
    }

    /// Imports a snapshot's configuration; only the current owner may.
    ///
    /// Refused, in order: `InvalidNonce` unless `nonce` is the caller's
    /// current nonce; `UnsupportedVersion`; `ChecksumMismatch`;
    /// `NotInitialized`; `Unauthorized` for a caller other than the owner;
    /// `PercentagesDoNotSumTo100`; `Overflow` when the nonce cannot advance.
    /// A refusal changes nothing. Success replaces the configuration,
    /// advances the caller's nonce and is audited.
    pub fn import_snapshot(&mut self, caller: AccountId, nonce: u64, snapshot: ExportSnapshot, now: u64) -> (r: Result<bool, RemittanceSplitError>)
        requires
            old(self).wf(),
        ensures
            final(self).wf(),
            r == old(self).import_result(caller, nonce, snapshot),
            r is Err ==> *final(self) == *old(self),
            r is Ok ==> {
                &&& same_admin_and_schedules(final(self), old(self))
                &&& final(self).config == Some(snapshot.config)
                &&& final(self).nonces@ == old(self).nonces@.insert(caller, (nonce + 1) as u64)
                &&& final(self).audited(old(self).audit@, audit_entry(SplitOperation::Import, caller, now, true))
            },
    {
        if nonce != self.nonces.current(caller) {
            return Err(RemittanceSplitError::InvalidNonce);
        }
        if snapshot.version != SNAPSHOT_VERSION {
            return Err(RemittanceSplitError::UnsupportedVersion);
        }
        let expected = Self::compute_checksum(snapshot.version, &snapshot.config);
        if snapshot.checksum != expected {
            return Err(RemittanceSplitError::ChecksumMismatch);
        }
        let existing = match self.config {
            None => return Err(RemittanceSplitError::NotInitialized),
            Some(c) => c,
        };
        if existing.owner != caller {
            return Err(RemittanceSplitError::Unauthorized);
        }
        let c = snapshot.config;
        let total = c.spending_percent as u64 + c.savings_percent as u64 + c.bills_percent as u64
            + c.insurance_percent as u64;
        if total != 100 {
            return Err(RemittanceSplitError::PercentagesDoNotSumTo100);
        }
        if nonce == u64::MAX {
            return Err(RemittanceSplitError::Overflow);
        }
        self.config = Some(c);
        match self.increment_nonce(caller) {
            Err(e) => return Err(e),
            Ok(()) => {},
        }
        self.push_audit(SplitOperation::Import, caller, now, true);
        Ok(true)
    }
}

impl RemittanceSplit {
    /// The page of the audit log that `get_audit_log` returns.
    pub open spec fn audit_page(&self, from_index: u32, limit: u32) -> Seq<AuditEntry> {
        let len = self.audit@.len();
        let cap = if limit < MAX_AUDIT_ENTRIES {
            limit
        } else {
            MAX_AUDIT_ENTRIES
        };
        if from_index >= len {
            Seq::empty()
        } else {
            let end = if from_index + cap > len {
                len as int
            } else {
                from_index + cap
            };
            self.audit@.subrange(from_index as int, end)
        }
    }

    /// A page of the audit log: entries `from_index ..`, at most
    /// `min(limit, 100)` of them, or nothing past the end.
    pub fn get_audit_log(&self, from_index: u32, limit: u32) -> (r: Vec<AuditEntry>)
        requires
            self.wf(),
        ensures
            r@ == self.audit_page(from_index, limit),
    {
        let len = self.audit.len() as u32;
        let cap = if limit < MAX_AUDIT_ENTRIES {
            limit
        } else {
            MAX_AUDIT_ENTRIES
        };
        let mut out: Vec<AuditEntry> = Vec::new();
        if from_index >= len {
            return out;
        }
        let end = if from_index + cap > len {
            len
        } else {
            from_index + cap
        };
        let mut i: u32 = from_index;
        while i < end
            invariant
                len == self.audit@.len(),
                from_index <= i <= end <= len,
                out@ == self.audit@.subrange(from_index as int, i as int),
            decreases end - i,
        {
            out.push(self.audit[i as usize]);
            assert(self.audit@.subrange(from_index as int, i as int).push(self.audit@[i as int])
                =~= self.audit@.subrange(from_index as int, i + 1));
            i = i + 1;
        }
        out
    }
}

/// Snapshot round trip: the snapshot the owner exports from a well-formed
/// state is accepted by `import_snapshot` with the owner's current nonce,
/// unless that nonce is exhausted, and carries the configuration in force,
/// so the import leaves the configuration as it was.
pub proof fn lemma_exported_snapshot_imports(s: &RemittanceSplit, caller: AccountId)
    requires
        s.wf(),
        s.config matches Some(c) && c.owner == caller,
        s.nonces.nonce_of(caller) < u64::MAX,
    ensures
        ({
            let c = s.config->Some_0;
            let snap = ExportSnapshot { version: SNAPSHOT_VERSION, checksum: checksum_of(SNAPSHOT_VERSION, c), config: c };
            &&& s.import_result(caller, s.nonces.nonce_of(caller), snap) == Ok::<bool, RemittanceSplitError>(true)
            &&& Some(snap.config) == s.config
        }),
{
}

/// Replay law: after an operation that advanced an account's nonce from
/// `n`, requests carrying `n` again are refused with `InvalidNonce` (every
/// nonce-checked operation refuses a nonce other than the current one; for
/// imports this is stated over `import_result`).
pub proof fn lemma_advanced_nonce_is_stale(before: &RemittanceSplit, after: &RemittanceSplit, account: AccountId, n: u64)
    requires
        n < u64::MAX,
        before.nonces.nonce_of(account) == n,
        after.nonces@ == before.nonces@.insert(account, (n + 1) as u64),
    ensures
        after.nonces.nonce_of(account) == n + 1,
        after.nonces.nonce_of(account) != n,
        forall|snapshot: ExportSnapshot| #[trigger] after.import_result(account, n, snapshot)
            == Err::<bool, RemittanceSplitError>(RemittanceSplitError::InvalidNonce),
{
}

// ---------------------------------------------------------------------------
// Schedules
// ---------------------------------------------------------------------------

/// Why the terms of a schedule are refused, or `None` when they are
/// accepted: the amount must be positive, the due date must lie after `now`
/// and at most `MAX_SCHEDULE_LEAD_TIME` after it, and a recurring interval
/// must be at least `MIN_SCHEDULE_INTERVAL` (0 means a one-off schedule).
pub open spec fn schedule_terms_refusal(amount: i128, next_due: u64, interval: u64, now: u64) -> Option<
    RemittanceSplitError,
> {
    if amount <= 0 {
        Some(RemittanceSplitError::InvalidAmount)
    } else if next_due <= now {
        Some(RemittanceSplitError::InvalidDueDate)
    } else if interval > 0 && interval < MIN_SCHEDULE_INTERVAL {
        Some(RemittanceSplitError::ScheduleIntervalTooShort)
    } else if next_due - now > MAX_SCHEDULE_LEAD_TIME {
        Some(RemittanceSplitError::ScheduleLeadTimeTooLong)
    } else {
        None
    }
}

/// Schedule-terms law: accepted terms have a positive amount, a due date
/// after `now` and at most `MAX_SCHEDULE_LEAD_TIME` after it, and either no
/// interval (one-off) or one of at least `MIN_SCHEDULE_INTERVAL`; and every
/// such set of terms is accepted.
pub proof fn lemma_schedule_terms_accepted(amount: i128, next_due: u64, interval: u64, now: u64)
    ensures
        schedule_terms_refusal(amount, next_due, interval, now) is None <==> (amount > 0 && now < next_due
            && next_due - now <= MAX_SCHEDULE_LEAD_TIME && (interval == 0 || interval >= MIN_SCHEDULE_INTERVAL)),
        amount <= 0 ==> schedule_terms_refusal(amount, next_due, interval, now) == Some(
            RemittanceSplitError::InvalidAmount,
        ),
{
}

/// Number of active schedules held by `owner`.
pub open spec fn active_schedule_count(schedules: Seq<RemittanceSchedule>, owner: AccountId) -> nat
    decreases schedules.len(),
{
    if schedules.len() == 0 {
        0
    } else {
        active_schedule_count(schedules.drop_last(), owner) + if schedules.last().owner == owner
            && schedules.last().active {
            1nat
        } else {
            0nat
        }
    }
}

/// An account never holds more active schedules than there are schedules.
proof fn lemma_active_schedule_count_bound(schedules: Seq<RemittanceSchedule>, owner: AccountId)
    ensures
        active_schedule_count(schedules, owner) <= schedules.len(),
    decreases schedules.len(),
{
    if schedules.len() > 0 {
        lemma_active_schedule_count_bound(schedules.drop_last(), owner);
    }
}

impl RemittanceSplit {
    /// Checks the terms of a new or changed schedule: `InvalidAmount`,
    /// `InvalidDueDate`, `ScheduleIntervalTooShort`,
    /// `ScheduleLeadTimeTooLong`, in that order.
    pub fn validate_schedule_terms(amount: i128, next_due: u64, interval: u64, now: u64) -> (r: Result<
        (),
        RemittanceSplitError,
    >)
        ensures
            r == match schedule_terms_refusal(amount, next_due, interval, now) {
                Some(e) => Err(e),
                None => Ok::<(), RemittanceSplitError>(()),
            },
            r is Ok ==> amount > 0 && now < next_due && next_due - now <= MAX_SCHEDULE_LEAD_TIME && (interval == 0
                || interval >= MIN_SCHEDULE_INTERVAL),
    {
        if amount <= 0 {
            return Err(RemittanceSplitError::InvalidAmount);
        }
        if next_due <= now {
            return Err(RemittanceSplitError::InvalidDueDate);
        }
        if interval > 0 && interval < MIN_SCHEDULE_INTERVAL {
            return Err(RemittanceSplitError::ScheduleIntervalTooShort);
        }
        if next_due - now > MAX_SCHEDULE_LEAD_TIME {
            return Err(RemittanceSplitError::ScheduleLeadTimeTooLong);
        }
        Ok(())
    }

    /// The number of active schedules `owner` holds.
    pub fn count_active_schedules(&self, owner: AccountId) -> (r: u32)
        requires
            self.wf(),
        ensures
            r == active_schedule_count(self.schedules@, owner),
    {
        let n = self.schedules.len();
        let mut count: u32 = 0;
        let mut i: usize = 0;
        while i < n
            invariant
                n == self.schedules@.len(),
                n <= u32::MAX,
                i <= n,
                count == active_schedule_count(self.schedules@.take(i as int), owner),
            decreases n - i,
        {
            proof {
                assert(self.schedules@.take(i + 1).drop_last() =~= self.schedules@.take(i as int));
                lemma_active_schedule_count_bound(self.schedules@.take(i as int), owner);
            }
            let s = self.schedules[i];
            if s.owner == owner && s.active {
                count = count + 1;
            }
            i = i + 1;
        }
        assert(self.schedules@.take(n as int) =~= self.schedules@);
        count
    }

    /// Creates an active schedule for `owner` and returns its id, one more
    /// than the previous id. Refused, in order, for terms that
    /// `validate_schedule_terms` refuses and with `ScheduleCapExceeded` when
    /// the owner already holds `MAX_SCHEDULES_PER_OWNER` active schedules; a
    /// refusal changes nothing. A positive interval makes the schedule
    /// recurring.
    pub fn create_remittance_schedule(&mut self, owner: AccountId, amount: i128, next_due: u64, interval: u64, now: u64) -> (r: Result<u32, RemittanceSplitError>)
        requires
            old(self).wf(),
            schedule_terms_refusal(amount, next_due, interval, now) is None && active_schedule_count(
                old(self).schedules@,
                owner,
            ) < MAX_SCHEDULES_PER_OWNER ==> old(self).next_schedule_id < u32::MAX,
        ensures
            final(self).wf(),
            r == match schedule_terms_refusal(amount, next_due, interval, now) {
                Some(e) => Err(e),
                None => if active_schedule_count(old(self).schedules@, owner) >= MAX_SCHEDULES_PER_OWNER {
                    Err(RemittanceSplitError::ScheduleCapExceeded)
                } else {
                    Ok::<u32, RemittanceSplitError>((old(self).next_schedule_id + 1) as u32)
                },
            },
            r is Err ==> *final(self) == *old(self),
            r is Ok ==> amount > 0 && now < next_due && next_due - now <= MAX_SCHEDULE_LEAD_TIME,
            r is Ok ==> {
                &&& *final(self) == (RemittanceSplit {
                    schedules: final(self).schedules,
                    next_schedule_id: final(self).next_schedule_id,
                    ..*old(self)
                })
                &&& final(self).next_schedule_id == old(self).next_schedule_id + 1
                &&& final(self).schedules@ == old(self).schedules@.push(
                    RemittanceSchedule {
                        id: (old(self).next_schedule_id + 1) as u32,
                        owner,
                        amount,
                        next_due,
                        interval,
                        recurring: interval > 0,
                        active: true,
                        created_at: now,
                        last_executed: None,
                        missed_count: 0,
                    },
                )
            },
    {
        match Self::validate_schedule_terms(amount, next_due, interval, now) {
            Err(e) => return Err(e),
            Ok(()) => {},
        }
        if self.count_active_schedules(owner) >= MAX_SCHEDULES_PER_OWNER {
            return Err(RemittanceSplitError::ScheduleCapExceeded);
        }
        let id = self.next_schedule_id + 1;
        let schedule = RemittanceSchedule {
            id,
            owner,
            amount,
            next_due,
            interval,
            recurring: interval > 0,
            active: true,
            created_at: now,
            last_executed: None,
            missed_count: 0,
        };
        self.schedules.push(schedule);
        self.next_schedule_id = id;
        Ok(id)
    }

    /// Changes a schedule's amount, due date and interval; only its owner
    /// may. Refused, in order, for terms that `validate_schedule_terms`
    /// refuses, then `ScheduleNotFound`, then `Unauthorized`; a refusal
    /// changes nothing.
    pub fn modify_remittance_schedule(
        &mut self,
        caller: AccountId,
        schedule_id: u32,
        amount: i128,
        next_due: u64,
        interval: u64,
        now: u64,
    ) -> (r: Result<bool, RemittanceSplitError>)
        requires
            old(self).wf(),
        ensures
            final(self).wf(),
            r == match schedule_terms_refusal(amount, next_due, interval, now) {
                Some(e) => Err(e),
                None => match old(self).schedule(schedule_id) {
                    None => Err(RemittanceSplitError::ScheduleNotFound),
                    Some(s) => if s.owner != caller {
                        Err(RemittanceSplitError::Unauthorized)
                    } else {
                        Ok::<bool, RemittanceSplitError>(true)
                    },
                },
            },
            r is Err ==> *final(self) == *old(self),
            r is Ok ==> amount > 0 && now < next_due && next_due - now <= MAX_SCHEDULE_LEAD_TIME,
            r is Ok ==> *final(self) == (RemittanceSplit {
                schedules: final(self).schedules,
                ..*old(self)
            }) && final(self).schedules@ == old(self).schedules@.update(
                schedule_id - 1,
                RemittanceSchedule {
                    amount,
                    next_due,
                    interval,
                    recurring: interval > 0,
                    ..old(self).schedules@[schedule_id - 1]
                },
            ),
    {
        match Self::validate_schedule_terms(amount, next_due, interval, now) {
            Err(e) => return Err(e),
            Ok(()) => {},
        }
        if schedule_id == 0 || schedule_id as usize > self.schedules.len() {
            return Err(RemittanceSplitError::ScheduleNotFound);
        }
        let idx = (schedule_id - 1) as usize;
        let mut schedule = self.schedules[idx];
        if schedule.owner != caller {
            return Err(RemittanceSplitError::Unauthorized);
        }
        schedule.amount = amount;
        schedule.next_due = next_due;
        schedule.interval = interval;
        schedule.recurring = interval > 0;
        self.schedules.set(idx, schedule);
        Ok(true)
    }

    /// Deactivates a schedule; only its owner may. `ScheduleNotFound` for an
    /// unknown id, `Unauthorized` for another caller.
    pub fn cancel_remittance_schedule(&mut self, caller: AccountId, schedule_id: u32) -> (r: Result<bool, RemittanceSplitError>)
        requires
            old(self).wf(),
        ensures
            final(self).wf(),
            old(self).schedule(schedule_id) is None ==> r == Err::<bool, RemittanceSplitError>(
                RemittanceSplitError::ScheduleNotFound,
            ),
            old(self).schedule(schedule_id) matches Some(s) && s.owner != caller ==> r == Err::<
                bool,
                RemittanceSplitError,
            >(RemittanceSplitError::Unauthorized),
            old(self).schedule(schedule_id) matches Some(s) && s.owner == caller ==> r == Ok::<
                bool,
                RemittanceSplitError,
            >(true),
            r is Err ==> *final(self) == *old(self),
            r is Ok ==> *final(self) == (RemittanceSplit {
                schedules: final(self).schedules,
                ..*old(self)
            }) && final(self).schedules@ == old(self).schedules@.update(
                schedule_id - 1,
                RemittanceSchedule { active: false, ..old(self).schedules@[schedule_id - 1] },
            ),
    {
        if schedule_id == 0 || schedule_id as usize > self.schedules.len() {
            return Err(RemittanceSplitError::ScheduleNotFound);
        }
        let idx = (schedule_id - 1) as usize;
        let mut schedule = self.schedules[idx];
        if schedule.owner != caller {
            return Err(RemittanceSplitError::Unauthorized);
        }
        schedule.active = false;
        self.schedules.set(idx, schedule);
        Ok(true)
    }

    /// The owner's schedules in id order.
    pub fn get_remittance_schedules(&self, owner: AccountId) -> (r: Vec<RemittanceSchedule>)
        ensures
            r@ == self.schedules@.filter(|s: RemittanceSchedule| s.owner == owner),
    {
        let n = self.schedules.len();
        let mut result: Vec<RemittanceSchedule> = Vec::new();
        let mut i: usize = 0;
        while i < n
            invariant
                n == self.schedules@.len(),
                i <= n,
                result@ == self.schedules@.take(i as int).filter(|s: RemittanceSchedule| s.owner == owner),
            decreases n - i,
        {
            let s = self.schedules[i];
            proof {
                reveal_with_fuel(Seq::filter, 1);
                assert(self.schedules@.take(i + 1).drop_last() =~= self.schedules@.take(i as int));
            }
            if s.owner == owner {
                result.push(s);
            }
            i = i + 1;
        }
        assert(self.schedules@.take(n as int) =~= self.schedules@);
        result
    }

    /// The schedule with the given id, if any.
    pub fn get_remittance_schedule(&self, schedule_id: u32) -> (r: Option<RemittanceSchedule>)
        requires
            self.wf(),
        ensures
            r == self.schedule(schedule_id),
    {
        if schedule_id == 0 || schedule_id as usize > self.schedules.len() {
            return None;
        }
        Some(self.schedules[(schedule_id - 1) as usize])
    }
}

} // verus!
