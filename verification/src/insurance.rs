//! Insurance policies: creation, deactivation, premium payments (single and
//! batched), premium totals, and cursor-based pages of active policies.

use vstd::prelude::*;
use crate::common::{clamp_limit, clamped_limit, AccountId, CoverageType, DEFAULT_PAGE_LIMIT, MAX_PAGE_LIMIT};

verus! {

/// Time between premium payments (30 days, in seconds).
pub const PREMIUM_PERIOD_SECS: u64 = 30 * 86_400;

/// Most active policies one owner may hold.
pub const MAX_POLICIES_PER_OWNER: u32 = 200;

/// Insurance errors.
#[derive(Clone, Copy, Debug, PartialEq, Eq, Structural)]
pub enum InsuranceError {
    /// The owner already holds `MAX_POLICIES_PER_OWNER` active policies.
    PolicyLimitExceeded,
}

impl InsuranceError {
    /// Wire code of the error.
    pub fn code(self) -> (r: u32)
        ensures
            r == 1,
    {
        match self {
            InsuranceError::PolicyLimitExceeded => 1,
        }
    }
}

/// An insurance policy.
#[derive(Clone, Debug)]
pub struct InsurancePolicy {
    pub id: u32,
    pub owner: AccountId,
    pub name: String,
    pub external_ref: Option<String>,
    pub coverage_type: CoverageType,
    pub monthly_premium: i128,
    pub coverage_amount: i128,
    pub active: bool,
    pub next_payment_date: u64,
}

/// A page of active policies.
#[derive(Clone, Debug)]
pub struct PolicyPage {
    pub items: Vec<InsurancePolicy>,
    /// The id of the last item when the page is full, 0 otherwise.
    pub next_cursor: u32,
    pub count: u32,
}

/// The insurance contract's state. Policy ids are assigned 1, 2, 3, ... and
/// the policy with id `k` is stored at position `k - 1`.
pub struct Insurance {
    pub pause_admin: Option<AccountId>,
    pub next_id: u32,
    pub policies: Vec<InsurancePolicy>,
}

// ---------------------------------------------------------------------------
// Specifications
// ---------------------------------------------------------------------------

impl Insurance {
    /// Policies are stored in id order with ids 1, 2, ..., `next_id`.
    pub open spec fn wf(&self) -> bool {
        &&& self.policies@.len() == self.next_id
        &&& forall|i: int| 0 <= i < self.policies@.len() ==> (#[trigger] self.policies@[i]).id == i + 1
    }

    /// The policy with the given id, if any.
    pub open spec fn policy(&self, id: u32) -> Option<InsurancePolicy> {
        if 1 <= id <= self.policies@.len() {
            Some(self.policies@[id - 1])
        } else {
            None
        }
    }
}

/// Whether a caller may pay the premium of a policy.
pub open spec fn payable_by(p: InsurancePolicy, caller: AccountId) -> bool {
    p.owner == caller && p.active
}

/// The policy with its next payment date moved.
pub open spec fn with_next_payment(p: InsurancePolicy, date: u64) -> InsurancePolicy {
    InsurancePolicy { next_payment_date: date, ..p }
}

/// The policy marked inactive.
pub open spec fn deactivated(p: InsurancePolicy) -> InsurancePolicy {
    InsurancePolicy { active: false, ..p }
}

/// Sum of the monthly premiums of the owner's active policies.
pub open spec fn premium_total(policies: Seq<InsurancePolicy>, owner: AccountId) -> int
    decreases policies.len(),
{
    if policies.len() == 0 {
        0
    } else {
        let last = policies.last();
        premium_total(policies.drop_last(), owner) + if last.owner == owner && last.active {
            last.monthly_premium as int
        } else {
            0
        }
    }
}

/// Premium-total law: an owner's total counts exactly the owner's own
/// active policies. With no policies it is 0; appending a policy adds its
/// monthly premium when the policy is the owner's and active, and leaves
/// the total unchanged otherwise (another owner's policy, or an inactive
/// one); and an owner without an active policy has total 0.
pub proof fn lemma_premium_total_counts_own_active(
    policies: Seq<InsurancePolicy>,
    p: InsurancePolicy,
    owner: AccountId,
)
    ensures
        premium_total(Seq::<InsurancePolicy>::empty(), owner) == 0,
        p.owner == owner && p.active ==> premium_total(policies.push(p), owner) == premium_total(policies, owner)
            + p.monthly_premium,
        p.owner != owner || !p.active ==> premium_total(policies.push(p), owner) == premium_total(
            policies,
            owner,
        ),
        (forall|i: int| 0 <= i < policies.len() ==> !((#[trigger] policies[i]).owner == owner && policies[i].active))
            ==> premium_total(policies, owner) == 0,
    decreases policies.len(),
{
    assert(policies.push(p).drop_last() =~= policies);
    if policies.len() > 0 {
        let q = policies.last();
        lemma_premium_total_counts_own_active(policies.drop_last(), q, owner);
        if forall|i: int| 0 <= i < policies.len() ==> !((#[trigger] policies[i]).owner == owner && policies[i].active) {
            assert forall|i: int| 0 <= i < policies.drop_last().len() implies !((#[trigger] policies.drop_last()[i]).owner
                == owner && policies.drop_last()[i].active) by {
                assert(policies.drop_last()[i] == policies[i]);
            }
            assert(!(policies[policies.len() - 1].owner == owner && policies[policies.len() - 1].active));
        }
    }
}

/// Number of active policies held by `owner`.
pub open spec fn active_policy_count(policies: Seq<InsurancePolicy>, owner: AccountId) -> nat
    decreases policies.len(),
{
    if policies.len() == 0 {
        0
    } else {
        active_policy_count(policies.drop_last(), owner) + if policies.last().owner == owner
            && policies.last().active {
            1nat
        } else {
            0nat
        }
    }
}

/// An account never holds more active policies than there are policies.
proof fn lemma_active_policy_count_bound(policies: Seq<InsurancePolicy>, owner: AccountId)
    ensures
        active_policy_count(policies, owner) <= policies.len(),
    decreases policies.len(),
{
    if policies.len() > 0 {
        lemma_active_policy_count_bound(policies.drop_last(), owner);
    }
}

/// Whether a policy belongs in an owner's pages after a cursor.
pub open spec fn listed_after(p: InsurancePolicy, owner: AccountId, cursor: u32) -> bool {
    p.owner == owner && p.active && p.id > cursor
}

/// The owner's active policies after the cursor, in id order.
pub open spec fn active_after(policies: Seq<InsurancePolicy>, owner: AccountId, cursor: u32) -> Seq<InsurancePolicy>
    decreases policies.len(),
{
    if policies.len() == 0 {
        Seq::empty()
    } else {
        let rest = active_after(policies.drop_last(), owner, cursor);
        if listed_after(policies.last(), owner, cursor) {
            rest.push(policies.last())
        } else {
            rest
        }
    }
}

/// Number of positions of `ids` naming a policy the caller may pay.
pub open spec fn payable_count(ins: &Insurance, caller: AccountId, ids: Seq<u32>) -> nat
    decreases ids.len(),
{
    if ids.len() == 0 {
        0
    } else {
        payable_count(ins, caller, ids.drop_last()) + match ins.policy(ids.last()) {
            Some(p) => if payable_by(p, caller) {
                1nat
            } else {
                0nat
            },
            None => 0nat,
        }
    }
}

/// `active_after` of a prefix is a prefix of `active_after` of the whole.
pub proof fn lemma_active_after_prefix(policies: Seq<InsurancePolicy>, owner: AccountId, cursor: u32, k: int)
    requires
        0 <= k <= policies.len(),
    ensures
        active_after(policies.take(k), owner, cursor).len() <= active_after(policies, owner, cursor).len(),
        active_after(policies.take(k), owner, cursor) == active_after(policies, owner, cursor).take(
            active_after(policies.take(k), owner, cursor).len() as int,
        ),
    decreases policies.len() - k,
{
    if k == policies.len() {
        assert(policies.take(k) =~= policies);
    } else {
        lemma_active_after_prefix(policies, owner, cursor, k + 1);
        assert(policies.take(k + 1).drop_last() =~= policies.take(k));
    }
}

/// Every listed policy belongs to the owner, is active and lies after the
/// cursor; when the ids are 1, 2, ..., every listed id is at most the
/// number of policies.
pub proof fn lemma_active_after_members(policies: Seq<InsurancePolicy>, owner: AccountId, cursor: u32)
    ensures
        forall|i: int|
            0 <= i < active_after(policies, owner, cursor).len() ==> listed_after(
                #[trigger] active_after(policies, owner, cursor)[i],
                owner,
                cursor,
            ),
        (forall|j: int| 0 <= j < policies.len() ==> (#[trigger] policies[j]).id == j + 1) ==> forall|i: int|
            0 <= i < active_after(policies, owner, cursor).len() ==> (#[trigger] active_after(
                policies,
                owner,
                cursor,
            )[i]).id <= policies.len(),
        active_after(policies, owner, cursor).len() <= policies.len(),
    decreases policies.len(),
{
    if policies.len() > 0 {
        lemma_active_after_members(policies.drop_last(), owner, cursor);
    }
}

/// Pagination law: with ids 1, 2, ..., asking for the owner's active
/// policies after the id of the `n`-th listed policy gives exactly the
/// listed policies that follow it. So following `next_cursor` from page to
/// page visits every active policy once, in id order.
pub proof fn lemma_next_page_continues(policies: Seq<InsurancePolicy>, owner: AccountId, cursor: u32, n: int)
    requires
        forall|j: int| 0 <= j < policies.len() ==> (#[trigger] policies[j]).id == j + 1,
        0 < n <= active_after(policies, owner, cursor).len(),
    ensures
        active_after(policies, owner, active_after(policies, owner, cursor)[n - 1].id) == active_after(
            policies,
            owner,
            cursor,
        ).skip(n),
    decreases policies.len(),
{
    let all = active_after(policies, owner, cursor);
    let prev = policies.drop_last();
    let last = policies.last();
    let a = active_after(prev, owner, cursor);
    let k = all[n - 1].id;
    assert forall|j: int| 0 <= j < prev.len() implies (#[trigger] prev[j]).id == j + 1 by {
        assert(prev[j] == policies[j]);
    }
    lemma_active_after_members(prev, owner, cursor);
    lemma_active_after_members(policies, owner, cursor);
    assert(last.id == policies.len());
    if n <= a.len() {
        assert(all[n - 1] == a[n - 1]);
        lemma_next_page_continues(prev, owner, cursor, n);
        assert(k <= prev.len());
        assert(listed_after(a[n - 1], owner, cursor));
        assert(listed_after(last, owner, k) == listed_after(last, owner, cursor));
        if listed_after(last, owner, cursor) {
            assert(all.skip(n) =~= a.skip(n).push(last));
        } else {
            assert(all.skip(n) =~= a.skip(n));
        }
    } else {
        assert(all == a.push(last));
        assert(k == policies.len());
        lemma_active_after_members(policies, owner, k);
        if active_after(policies, owner, k).len() > 0 {
            assert(listed_after(active_after(policies, owner, k)[0], owner, k));
        }
        assert(active_after(policies, owner, k) =~= all.skip(n));
    }
}

// ---------------------------------------------------------------------------
// Operations
// ---------------------------------------------------------------------------

/// An exact copy of a policy.
fn copy_policy(p: &InsurancePolicy) -> (r: InsurancePolicy)
    ensures
        r == *p,
{
    InsurancePolicy {
        id: p.id,
        owner: p.owner,
        name: p.name.clone(),
        external_ref: match &p.external_ref {
            Some(s) => Some(s.clone()),
            None => None,
        },
        coverage_type: p.coverage_type,
        monthly_premium: p.monthly_premium,
        coverage_amount: p.coverage_amount,
        active: p.active,
        next_payment_date: p.next_payment_date,
    }
}

impl Insurance {
    /// An empty contract: no pause admin, no policies.
    pub fn new() -> (r: Insurance)
        ensures
            r.wf(),
            r.pause_admin is None,
            r.next_id == 0,
            r.policies@ == Seq::<InsurancePolicy>::empty(),
    {
        Insurance { pause_admin: None, next_id: 0, policies: Vec::new() }
    }

    /// Whether the stored state has the shape the contract maintains.
    pub fn is_well_formed(&self) -> (r: bool)
        ensures
            r == self.wf(),
    {
        if self.policies.len() != self.next_id as usize {
            return false;
        }
        let n = self.policies.len();
        let mut i: usize = 0;
        while i < n
            invariant
                n == self.policies@.len(),
                i <= n,
                forall|j: int| 0 <= j < i ==> (#[trigger] self.policies@[j]).id == j + 1,
            decreases n - i,
        {
            if self.policies[i].id as usize != i + 1 {
                return false;
            }
            i = i + 1;
        }
        true
    }

    /// Records the pause administrator.
    pub fn set_pause_admin(&mut self, caller: AccountId, new_admin: AccountId) -> (r: bool)
        ensures
            r,
            final(self).pause_admin == Some(new_admin),
            final(self).next_id == old(self).next_id,
            final(self).policies == old(self).policies,
    {
        self.pause_admin = Some(new_admin);
        true
    }

    /// The number of active policies `owner` holds.
    pub fn count_active_policies(&self, owner: AccountId) -> (r: u32)
        requires
            self.wf(),
        ensures
            r == active_policy_count(self.policies@, owner),
    {
        let n = self.policies.len();
        let mut count: u32 = 0;
        let mut i: usize = 0;
        while i < n
            invariant
                n == self.policies@.len(),
                n <= u32::MAX,
                i <= n,
                count == active_policy_count(self.policies@.take(i as int), owner),
            decreases n - i,
        {
            proof {
                assert(self.policies@.take(i + 1).drop_last() =~= self.policies@.take(i as int));
                lemma_active_policy_count_bound(self.policies@.take(i as int), owner);
            }
            if self.policies[i].owner == owner && self.policies[i].active {
                count = count + 1;
            }
            i = i + 1;
        }
        assert(self.policies@.take(n as int) =~= self.policies@);
        count
    }

    /// Creates an active policy for `owner`, due `now + 30 days`, and returns
    /// its id, one more than the previous id. `PolicyLimitExceeded`, with
    /// nothing changed, when the owner already holds
    /// `MAX_POLICIES_PER_OWNER` active policies.
    pub fn create_policy(
        &mut self,
        owner: AccountId,
        name: String,
        coverage_type: CoverageType,
        monthly_premium: i128,
        coverage_amount: i128,
        external_ref: Option<String>,
        now: u64,
    ) -> (r: Result<u32, InsuranceError>)
        requires
            old(self).wf(),
            active_policy_count(old(self).policies@, owner) < MAX_POLICIES_PER_OWNER ==> old(self).next_id
                < u32::MAX && now + PREMIUM_PERIOD_SECS <= u64::MAX,
        ensures
            final(self).wf(),
            active_policy_count(old(self).policies@, owner) >= MAX_POLICIES_PER_OWNER ==> r == Err::<
                u32,
                InsuranceError,
            >(InsuranceError::PolicyLimitExceeded) && final(self).next_id == old(self).next_id
                && final(self).pause_admin == old(self).pause_admin && final(self).policies
                == old(self).policies,
            active_policy_count(old(self).policies@, owner) < MAX_POLICIES_PER_OWNER ==> {
                &&& r == Ok::<u32, InsuranceError>((old(self).next_id + 1) as u32)
                &&& final(self).next_id == old(self).next_id + 1
                &&& final(self).pause_admin == old(self).pause_admin
                &&& final(self).policies@ == old(self).policies@.push(
                    InsurancePolicy {
                        id: (old(self).next_id + 1) as u32,
                        owner,
                        name,
                        external_ref,
                        coverage_type,
                        monthly_premium,
                        coverage_amount,
                        active: true,
                        next_payment_date: (now + PREMIUM_PERIOD_SECS) as u64,
                    },
                )
            },
    {
        if self.count_active_policies(owner) >= MAX_POLICIES_PER_OWNER {
            return Err(InsuranceError::PolicyLimitExceeded);
        }
        let next_id = self.next_id + 1;
        let policy = InsurancePolicy {
            id: next_id,
            owner,
            name,
            external_ref,
            coverage_type,
            monthly_premium,
            coverage_amount,
            active: true,
            next_payment_date: now + PREMIUM_PERIOD_SECS,
        };
        self.policies.push(policy);
        self.next_id = next_id;
        Ok(next_id)
    }

    /// Whether the caller may pay the premium of the policy with this id.
    pub fn is_payable(&self, caller: AccountId, policy_id: u32) -> (r: bool)
        requires
            self.wf(),
        ensures
            r == (self.policy(policy_id) matches Some(p) && payable_by(p, caller)),
    {
        if policy_id == 0 || (policy_id as usize) > self.policies.len() {
            return false;
        }
        let p = &self.policies[(policy_id - 1) as usize];
        p.owner == caller && p.active
    }

    /// The policy with the given id, if any.
    pub fn get_policy(&self, policy_id: u32) -> (r: Option<InsurancePolicy>)
        requires
            self.wf(),
        ensures
            r == self.policy(policy_id),
    {
        if policy_id >= 1 && (policy_id as usize) <= self.policies.len() {
            Some(copy_policy(&self.policies[(policy_id - 1) as usize]))
        } else {
            None
        }
    }

    /// Deactivates a policy; only its owner may. Returns whether it did.
    pub fn deactivate_policy(&mut self, caller: AccountId, policy_id: u32) -> (r: bool)
        requires
            old(self).wf(),
        ensures
            final(self).wf(),
            r == (old(self).policy(policy_id) matches Some(p) && p.owner == caller),
            r ==> final(self).policies@ == old(self).policies@.update(
                policy_id - 1,
                deactivated(old(self).policies@[policy_id - 1]),
            ),
            !r ==> final(self).policies == old(self).policies,
            final(self).next_id == old(self).next_id,
            final(self).pause_admin == old(self).pause_admin,
    {
        if policy_id == 0 || (policy_id as usize) > self.policies.len() {
            return false;
        }
        let idx = (policy_id - 1) as usize;
        if self.policies[idx].owner != caller {
            return false;
        }
        let mut policy = copy_policy(&self.policies[idx]);
        policy.active = false;
        self.policies.set(idx, policy);
        true
    }

    /// Pays the premium of a policy, moving its next payment date to
    /// `now + 30 days`; only the owner of an active policy may. Returns
    /// whether it did.
    pub fn pay_premium(&mut self, caller: AccountId, policy_id: u32, now: u64) -> (r: bool)
        requires
            old(self).wf(),
            (old(self).policy(policy_id) matches Some(p) && payable_by(p, caller)) ==> now
                + PREMIUM_PERIOD_SECS <= u64::MAX,
        ensures
            final(self).wf(),
            r == (old(self).policy(policy_id) matches Some(p) && payable_by(p, caller)),
            r ==> final(self).policies@ == old(self).policies@.update(
                policy_id - 1,
                with_next_payment(old(self).policies@[policy_id - 1], (now + PREMIUM_PERIOD_SECS) as u64),
            ),
            !r ==> final(self).policies == old(self).policies,
            final(self).next_id == old(self).next_id,
            final(self).pause_admin == old(self).pause_admin,
    {
        if policy_id == 0 || (policy_id as usize) > self.policies.len() {
            return false;
        }
        let idx = (policy_id - 1) as usize;
        if self.policies[idx].owner != caller || !self.policies[idx].active {
            return false;
        }
        let mut policy = copy_policy(&self.policies[idx]);
        policy.next_payment_date = now + PREMIUM_PERIOD_SECS;
        self.policies.set(idx, policy);
        true
    }

    /// Pays the premiums of the listed policies that the caller may pay,
    /// all to the same next date `now + 30 days`, and returns how many
    /// list positions were paid (a policy listed twice counts twice).
    pub fn batch_pay_premiums(&mut self, caller: AccountId, policy_ids: &Vec<u32>, now: u64) -> (r: u32)
        requires
            old(self).wf(),
            policy_ids@.len() <= u32::MAX,
            now + PREMIUM_PERIOD_SECS <= u64::MAX,
        ensures
            final(self).wf(),
            r == payable_count(old(self), caller, policy_ids@),
            final(self).policies@.len() == old(self).policies@.len(),
            forall|i: int|
                0 <= i < old(self).policies@.len() ==> #[trigger] final(self).policies@[i] == if payable_by(
                    old(self).policies@[i],
                    caller,
                ) && policy_ids@.contains((i + 1) as u32) {
                    with_next_payment(old(self).policies@[i], (now + PREMIUM_PERIOD_SECS) as u64)
                } else {
                    old(self).policies@[i]
                },
            final(self).next_id == old(self).next_id,
            final(self).pause_admin == old(self).pause_admin,
    {
        let next_date = now + PREMIUM_PERIOD_SECS;
        let n = policy_ids.len();
        let mut count: u32 = 0;
        let mut k: usize = 0;
        while k < n
            invariant
                n == policy_ids@.len(),
                n <= u32::MAX,
                k <= n,
                next_date == now + PREMIUM_PERIOD_SECS,
                self.wf(),
                self.next_id == old(self).next_id,
                self.pause_admin == old(self).pause_admin,
                self.policies@.len() == old(self).policies@.len(),
                count == payable_count(old(self), caller, policy_ids@.take(k as int)),
                count <= k,
                forall|i: int|
                    0 <= i < old(self).policies@.len() ==> #[trigger] self.policies@[i] == if payable_by(
                        old(self).policies@[i],
                        caller,
                    ) && policy_ids@.take(k as int).contains((i + 1) as u32) {
                        with_next_payment(old(self).policies@[i], next_date)
                    } else {
                        old(self).policies@[i]
                    },
            decreases n - k,
        {
            let id = policy_ids[k];
            let ghost before = self.policies@;
            assert(policy_ids@.take(k + 1).drop_last() =~= policy_ids@.take(k as int));
            assert(policy_ids@.take(k + 1).last() == id);
            if id >= 1 && (id as usize) <= self.policies.len() {
                let idx = (id - 1) as usize;
                if self.policies[idx].owner == caller && self.policies[idx].active {
                    let mut p = copy_policy(&self.policies[idx]);
                    p.next_payment_date = next_date;
                    self.policies.set(idx, p);
                    count = count + 1;
                }
            }
            assert forall|i: int| 0 <= i < old(self).policies@.len() implies #[trigger] self.policies@[i] == if payable_by(
                old(self).policies@[i],
                caller,
            ) && policy_ids@.take(k + 1).contains((i + 1) as u32) {
                with_next_payment(old(self).policies@[i], next_date)
            } else {
                old(self).policies@[i]
            } by {
                assert(policy_ids@.take(k + 1) =~= policy_ids@.take(k as int).push(id));
                if policy_ids@.take(k as int).contains((i + 1) as u32) {
                    let w = choose|w: int| 0 <= w < k && #[trigger] policy_ids@.take(k as int)[w] == (i + 1) as u32;
                    assert(policy_ids@.take(k + 1)[w] == (i + 1) as u32);
                }
                if (i + 1) as u32 == id {
                    assert(policy_ids@.take(k + 1)[k as int] == id);
                }
                if policy_ids@.take(k + 1).contains((i + 1) as u32) && (i + 1) as u32 != id {
                    let w = choose|w: int| 0 <= w < k + 1 && #[trigger] policy_ids@.take(k + 1)[w] == (i + 1) as u32;
                    assert(w < k);
                    assert(policy_ids@.take(k as int)[w] == (i + 1) as u32);
                }
            }
            k = k + 1;
        }
        assert(policy_ids@.take(n as int) =~= policy_ids@);
        count
    }

    /// Sum of the monthly premiums of the owner's active policies.
    pub fn get_total_monthly_premium(&self, owner: AccountId) -> (r: i128)
        requires
            forall|k: int|
                0 <= k <= self.policies@.len() ==> i128::MIN <= #[trigger] premium_total(
                    self.policies@.take(k),
                    owner,
                ) <= i128::MAX,
        ensures
            r == premium_total(self.policies@, owner),
    {
        let n = self.policies.len();
        let mut total: i128 = 0;
        let mut i: usize = 0;
        while i < n
            invariant
                n == self.policies@.len(),
                i <= n,
                total == premium_total(self.policies@.take(i as int), owner),
                forall|k: int|
                    0 <= k <= self.policies@.len() ==> i128::MIN <= #[trigger] premium_total(
                        self.policies@.take(k),
                        owner,
                    ) <= i128::MAX,
            decreases n - i,
        {
            assert(self.policies@.take(i + 1).drop_last() =~= self.policies@.take(i as int));
            let p = &self.policies[i];
            if p.owner == owner && p.active {
                assert(premium_total(self.policies@.take(i + 1), owner) == total + p.monthly_premium);
                total = total + p.monthly_premium;
            }
            i = i + 1;
        }
        assert(self.policies@.take(n as int) =~= self.policies@);
        total
    }

    /// Whether summing the owner's premiums in id order stays within `i128`,
    /// which `get_total_monthly_premium` requires.
    pub fn premium_total_fits(&self, owner: AccountId) -> (r: bool)
        ensures
            r == forall|k: int|
                0 <= k <= self.policies@.len() ==> i128::MIN <= #[trigger] premium_total(
                    self.policies@.take(k),
                    owner,
                ) <= i128::MAX,
    {
        let n = self.policies.len();
        let mut total: i128 = 0;
        let mut i: usize = 0;
        assert(self.policies@.take(0) =~= Seq::<InsurancePolicy>::empty());
        while i < n
            invariant
                n == self.policies@.len(),
                i <= n,
                total == premium_total(self.policies@.take(i as int), owner),
                forall|k: int|
                    0 <= k <= i ==> i128::MIN <= #[trigger] premium_total(self.policies@.take(k), owner)
                        <= i128::MAX,
            decreases n - i,
        {
            assert(self.policies@.take(i + 1).drop_last() =~= self.policies@.take(i as int));
            let p = &self.policies[i];
            if p.owner == owner && p.active {
                match total.checked_add(p.monthly_premium) {
                    Some(t) => {
                        total = t;
                    },
                    None => {
                        assert(!(i128::MIN <= premium_total(self.policies@.take(i + 1), owner) <= i128::MAX));
                        return false;
                    },
                }
            }
            i = i + 1;
        }
        true
    }

    /// A page of the owner's active policies with ids above `cursor`, in id
    /// order, at most the clamped limit long. The cursor for the next page
    /// is the last id when the page is full, and 0 when it is not.
    pub fn get_active_policies(&self, owner: AccountId, cursor: u32, limit: u32) -> (r: PolicyPage)
        requires
            self.wf(),
        ensures
            ({
                let all = active_after(self.policies@, owner, cursor);
                let lim = clamped_limit(limit) as int;
                let n = if all.len() < lim {
                    all.len() as int
                } else {
                    lim
                };
                &&& r.items@ == all.take(n)
                &&& r.count == n
                &&& r.next_cursor == if n < lim {
                    0
                } else {
                    all[n - 1].id
                }
            }),
    {
        let lim = clamp_limit(limit);
        let total = self.policies.len();
        let mut items: Vec<InsurancePolicy> = Vec::new();
        let mut next_cursor: u32 = 0;
        let mut i: usize = 0;
        while i < total
            invariant_except_break
                items@.len() < lim,
            invariant
                total == self.policies@.len(),
                1 <= lim <= MAX_PAGE_LIMIT,
                i <= total,
                items@.len() <= lim,
                items@ == active_after(self.policies@.take(i as int), owner, cursor),
                items@.len() > 0 ==> next_cursor == items@.last().id,
            ensures
                items@.len() <= lim,
                items@ == active_after(self.policies@.take(i as int), owner, cursor),
                items@.len() > 0 ==> next_cursor == items@.last().id,
                i < total ==> items@.len() == lim,
                i == total || items@.len() == lim,
                i <= total,
            decreases total - i,
        {
            assert(self.policies@.take(i + 1).drop_last() =~= self.policies@.take(i as int));
            let p = &self.policies[i];
            i = i + 1;
            if p.id <= cursor {
                continue;
            }
            if !p.active || p.owner != owner {
                continue;
            }
            items.push(copy_policy(p));
            next_cursor = p.id;
            if items.len() >= lim as usize {
                break;
            }
        }
        proof {
            lemma_active_after_prefix(self.policies@, owner, cursor, i as int);
            let all = active_after(self.policies@, owner, cursor);
            if i == total {
                assert(self.policies@.take(total as int) =~= self.policies@);
            }
            if items@.len() < lim {
                assert(items@ == all);
                assert(all.take(all.len() as int) =~= all);
            } else {
                assert(items@ == all.take(lim as int));
                assert(all[lim - 1] == items@[lim - 1]);
            }
        }
        let out_cursor = if items.len() < lim as usize {
            0
        } else {
            next_cursor
        };
        let count = items.len() as u32;
        PolicyPage { items, next_cursor: out_cursor, count }
    }
}

} // verus!
