//! Tests for the inputs on which an entry point would trap (an overflow, or a
//! record it must read that is missing). A host calls an entry point only where
//! its test passes, and traps otherwise.
use vstd::prelude::*;

use crate::billing::{
    advance_fits, approval_fits, approval_ledgers, charge_ready, charge_stage, signup_periods,
    stage_computable, stage_of, ChargeStage, DEFAULT_APPROVAL_PERIODS,
};
use crate::contract::{create_plan_fits, reactivate_fits, reactivated_ledger, remaining_periods, subscribe_fits};
use crate::migration::{accept_migration_ready, request_migration_ready};
use crate::storage::{self, ids_at, VowenaContract};
use crate::types::{AccountId, Plan, Subscription, SubscriptionStatus};

verus! {

/// Whether the allowance for `periods` periods of `plan` from ledger
/// `sequence` can be computed without overflow.
fn approval_within_limits(plan: &Plan, periods: u64, sequence: u32) -> (b: bool)
    ensures
        b == approval_fits(plan@, periods, sequence),
{
    if plan.price_ceiling.checked_mul(periods as i128).is_none() {
        return false;
    }
    sequence.checked_add(approval_ledgers(periods, plan.period)).is_some()
}

/// Whether counting one more period of `sub` under `plan` stays in range.
fn advance_within_limits(sub: &Subscription, plan: &Plan) -> (b: bool)
    ensures
        b == advance_fits(*sub, plan@),
{
    sub.periods_billed < u32::MAX && sub.next_billing_time.checked_add(plan.period).is_some()
}

/// Whether a charge attempt on `sub` under `plan` at `now` stays in range up
/// to the payment stage.
fn attempt_within_limits(sub: &Subscription, plan: &Plan, now: u64) -> (b: bool)
    ensures
        b == (stage_computable(*sub, plan@, now) && (stage_of(*sub, plan@, now)
            == ChargeStage::InTrial ==> advance_fits(*sub, plan@))),
{
    if sub.status == SubscriptionStatus::Active && now >= sub.next_billing_time && !(
    plan.max_periods > 0 && sub.periods_billed >= plan.max_periods) && sub.periods_billed
        >= plan.trial_periods && sub.failed_at > 0 && sub.failed_at.checked_add(
        plan.grace_period,
    ).is_none() {
        return false;
    }
    match charge_stage(sub, plan, now) {
        ChargeStage::InTrial => advance_within_limits(sub, plan),
        _ => true,
    }
}

impl VowenaContract {
    /// Whether `create_plan` with these terms stays within the plan counter.
    pub fn create_plan_within_limits(&self, amount: i128, period: u64, price_ceiling: i128) -> (b:
        bool)
        ensures
            b == create_plan_fits(self@, amount, period, price_ceiling),
    {
        !(self.admin.is_some() && amount > 0 && period > 0 && price_ceiling >= amount)
            || self.next_plan_id < u64::MAX
    }

    /// Whether `create_project` stays within the project counter.
    pub fn create_project_within_limits(&self) -> (b: bool)
        ensures
            b == (self@.next_project_id < u64::MAX),
    {
        self.next_project_id < u64::MAX
    }

    /// Whether `subscribe` runs without overflow.
    pub fn subscribe_within_limits(&self, plan_id: u64, now: u64, sequence: u32) -> (b: bool)
        ensures
            b == subscribe_fits(self@, plan_id, now, sequence),
    {
        if !storage::has_plan(self, plan_id) {
            return true;
        }
        let plan = storage::get_plan(self, plan_id);
        if !plan.active {
            return true;
        }
        let periods: u64 = if plan.max_periods > 0 {
            plan.max_periods as u64
        } else {
            DEFAULT_APPROVAL_PERIODS
        };
        approval_within_limits(&plan, periods, sequence) && self.next_sub_id < u64::MAX
            && now.checked_add(plan.period).is_some()
    }

    /// Whether `charge` finds what it reads and runs without overflow up to
    /// the payment stage.
    pub fn charge_within_limits(&self, sub_id: u64, now: u64) -> (b: bool)
        ensures
            b == (self@.subs.contains_key(sub_id) ==> charge_ready(self@, sub_id, now)),
    {
        if !storage::has_sub(self, sub_id) {
            return true;
        }
        let sub = storage::get_sub(self, sub_id);
        if !storage::has_plan(self, sub.plan_id) {
            return false;
        }
        let plan = storage::get_plan(self, sub.plan_id);
        attempt_within_limits(&sub, &plan, now)
    }

    /// Whether settling a payment on `sub_id` with these funds runs without
    /// overflow; the subscription and its plan must be stored.
    pub fn settlement_within_limits(&self, sub_id: u64, balance: i128, allowance: i128) -> (b: bool)
        requires
            self@.subs.contains_key(sub_id),
            self@.plans.contains_key(self@.subs[sub_id].plan_id),
        ensures
            b == (crate::billing::can_pay(self@.plans[self@.subs[sub_id].plan_id], balance, allowance)
                ==> advance_fits(self@.subs[sub_id], self@.plans[self@.subs[sub_id].plan_id])),
    {
        let sub = storage::get_sub(self, sub_id);
        let plan = storage::get_plan(self, sub.plan_id);
        !(balance >= plan.amount && allowance >= plan.amount) || advance_within_limits(&sub, &plan)
    }

    /// Whether the subscription, where stored, refers to a stored plan (as
    /// `cancel` and `refund` need).
    pub fn subscription_plan_stored(&self, sub_id: u64) -> (b: bool)
        ensures
            b == (self@.subs.contains_key(sub_id) ==> self@.plans.contains_key(
                self@.subs[sub_id].plan_id,
            )),
    {
        if !storage::has_sub(self, sub_id) {
            return true;
        }
        let sub = storage::get_sub(self, sub_id);
        storage::has_plan(self, sub.plan_id)
    }

    /// Whether `reactivate` finds what it reads and runs without overflow up to
    /// the payment stage of the charge it starts.
    pub fn reactivate_within_limits(&self, subscriber: AccountId, sub_id: u64, now: u64, sequence: u32) -> (b:
        bool)
        ensures
            b == reactivate_fits(self@, subscriber, sub_id, now, sequence),
    {
        if !storage::has_sub(self, sub_id) {
            return true;
        }
        let sub = storage::get_sub(self, sub_id);
        if sub.subscriber != subscriber || sub.status != SubscriptionStatus::Paused {
            return true;
        }
        if !storage::has_plan(self, sub.plan_id) {
            return false;
        }
        let plan = storage::get_plan(self, sub.plan_id);
        let periods: u64 = if plan.max_periods > 0 {
            let remaining: u32 = if plan.max_periods > sub.periods_billed {
                plan.max_periods - sub.periods_billed
            } else {
                0
            };
            remaining as u64
        } else {
            DEFAULT_APPROVAL_PERIODS
        };
        assert(periods == remaining_periods(plan@, sub));
        if !approval_within_limits(&plan, periods, sequence) {
            return false;
        }
        let ghost s1 = reactivated_ledger(self@, sub_id, now, sequence);
        let active = Subscription {
            status: SubscriptionStatus::Active,
            failed_at: 0,
            next_billing_time: now,
            paused_at: 0,
            ..sub
        };
        let subject = if sub.id == sub_id {
            active
        } else {
            sub
        };
        assert(s1.subs.contains_key(sub_id));
        assert(s1.subs[sub_id] == subject);
        assert(s1.plans == self@.plans);
        assert(s1.plans[sub.plan_id] == plan@);
        attempt_within_limits(&subject, &plan, now)
    }

    /// Whether a migration request finds both plans and, where it would mark
    /// subscriptions, every subscription listed under the old plan.
    pub fn request_migration_within_limits(&self, merchant: AccountId, old_plan_id: u64, new_plan_id: u64) -> (b:
        bool)
        ensures
            b == request_migration_ready(self@, merchant, old_plan_id, new_plan_id),
    {
        if !storage::has_plan(self, old_plan_id) || !storage::has_plan(self, new_plan_id) {
            return false;
        }
        let old_plan = storage::get_plan(self, old_plan_id);
        let new_plan = storage::get_plan(self, new_plan_id);
        if !(old_plan.merchant == merchant && new_plan.merchant == merchant && new_plan.active) {
            return true;
        }
        let ids = storage::get_plan_subs(self, old_plan_id);
        let n = ids.len();
        for i in 0..n
            invariant
                n == ids.len(),
                ids@ == ids_at(self@.plan_subs, old_plan_id),
                self@.plans.contains_key(old_plan_id),
                self@.plans.contains_key(new_plan_id),
                self@.plans[old_plan_id].merchant == merchant,
                self@.plans[new_plan_id].merchant == merchant,
                self@.plans[new_plan_id].active,
                forall|j: int| 0 <= j < i ==> self@.subs.contains_key(#[trigger] ids@[j]),
        {
            if !storage::has_sub(self, ids[i]) {
                assert(!self@.subs.contains_key(ids_at(self@.plan_subs, old_plan_id)[i as int]));
                return false;
            }
        }
        true
    }

    /// Whether `accept_migration` finds what it reads and runs without overflow.
    pub fn accept_migration_within_limits(&self, subscriber: AccountId, sub_id: u64, now: u64, sequence: u32) -> (b:
        bool)
        ensures
            b == accept_migration_ready(self@, subscriber, sub_id, now, sequence),
    {
        if !storage::has_sub(self, sub_id) {
            return false;
        }
        let sub = storage::get_sub(self, sub_id);
        if !(sub.subscriber == subscriber && sub.migration_target != 0) {
            return true;
        }
        if !storage::has_plan(self, sub.migration_target) {
            return false;
        }
        let plan = storage::get_plan(self, sub.migration_target);
        let periods: u64 = if plan.max_periods > 0 {
            plan.max_periods as u64
        } else {
            DEFAULT_APPROVAL_PERIODS
        };
        assert(periods == signup_periods(plan@));
        approval_within_limits(&plan, periods, sequence) && self.next_sub_id < u64::MAX
            && now.checked_add(plan.period).is_some()
    }
}

} // verus!
