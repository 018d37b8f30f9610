use vstd::prelude::*;

use std::collections::HashMap;

use crate::billing::{
    self, approval, approval_fits, approval_for, charge_outcome, charge_ready, funds_check_for,
    needs_funds, signup_periods, ChargeStep, DEFAULT_APPROVAL_PERIODS,
};
use crate::errors::VowenaError;
use crate::events::{self, Effect, Event};
use crate::migration;
use crate::laws::{self, ledger_sound};
use crate::storage::{self, ids_at, LedgerView, VowenaContract};
use crate::types::{AccountId, Plan, PlanView, Project, ProjectView, Subscription, SubscriptionStatus};

verus! {

broadcast use vstd::std_specs::hash::group_hash_axioms;

// ---------------------------------------------------------------------------
// What each entry point does, stated over the ledger's value.
// ---------------------------------------------------------------------------

/// The ledger and the result of `initialize`.
pub open spec fn initialize_spec(s: LedgerView, admin: AccountId) -> (LedgerView, Result<(), VowenaError>) {
    if s.admin.is_some() {
        (s, Err(VowenaError::AlreadyInitialized))
    } else {
        (LedgerView { admin: Some(admin), next_plan_id: 1, next_sub_id: 1, ..s }, Ok(()))
    }
}

/// The ledger and the id of a new project.
pub open spec fn create_project_spec(
    s: LedgerView,
    merchant: AccountId,
    name: Seq<char>,
    description: Seq<char>,
    now: u64,
) -> (LedgerView, u64) {
    let id = s.next_project_id;
    (
        LedgerView {
            next_project_id: (id + 1) as u64,
            projects: s.projects.insert(
                id,
                ProjectView { id, merchant, name, description, created_at: now },
            ),
            ..s
        }.add_merchant_project(merchant, id).record(
            Effect::Emit(Event::ProjectCreated { project_id: id, merchant }),
        ),
        id,
    )
}

/// Creating a plan with these terms stays within the plan counter.
pub open spec fn create_plan_fits(s: LedgerView, amount: i128, period: u64, price_ceiling: i128) -> bool {
    (s.admin.is_some() && amount > 0 && period > 0 && price_ceiling >= amount) ==> s.next_plan_id
        < u64::MAX
}

/// The ledger and the result of `create_plan`.
pub open spec fn create_plan_spec(
    s: LedgerView,
    merchant: AccountId,
    token: AccountId,
    amount: i128,
    period: u64,
    trial_periods: u32,
    max_periods: u32,
    grace_period: u64,
    price_ceiling: i128,
    name: Seq<char>,
    project_id: u64,
    now: u64,
) -> (LedgerView, Result<u64, VowenaError>) {
    if s.admin.is_none() {
        (s, Err(VowenaError::NotInitialized))
    } else if amount <= 0 {
        (s, Err(VowenaError::InvalidAmount))
    } else if period == 0 {
        (s, Err(VowenaError::InvalidPeriod))
    } else if price_ceiling < amount {
        (s, Err(VowenaError::CeilingBelowAmount))
    } else {
        let plan_id = s.next_plan_id;
        let plan = PlanView {
            id: plan_id,
            merchant,
            token,
            amount,
            period,
            trial_periods,
            max_periods,
            grace_period,
            price_ceiling,
            created_at: now,
            active: true,
            name,
            project_id,
        };
        (
            LedgerView { next_plan_id: (plan_id + 1) as u64, ..s }.put_plan(plan).add_merchant_plan(
                merchant,
                plan_id,
            ).record(Effect::Emit(Event::PlanCreated { plan_id, merchant })),
            Ok(plan_id),
        )
    }
}

/// The subscription that signing `subscriber` up to `plan` at `now` creates under `id`.
pub open spec fn new_subscription(id: u64, plan: PlanView, subscriber: AccountId, now: u64) -> Subscription {
    Subscription {
        id,
        plan_id: plan.id,
        subscriber,
        status: SubscriptionStatus::Active,
        created_at: now,
        periods_billed: 0,
        next_billing_time: (now + plan.period) as u64,
        failed_at: 0,
        migration_target: 0,
        cancelled_at: 0,
        paused_at: 0,
    }
}

/// `subscribe` cannot overflow: the allowance, the next id and the first
/// billing time all fit.
pub open spec fn subscribe_fits(s: LedgerView, plan_id: u64, now: u64, sequence: u32) -> bool {
    let plan = s.plans[plan_id];
    (s.plans.contains_key(plan_id) && plan.active) ==> {
        &&& approval_fits(plan, signup_periods(plan), sequence)
        &&& s.next_sub_id < u64::MAX
        &&& now + plan.period <= u64::MAX
    }
}

/// The ledger and the result of `subscribe`.
pub open spec fn subscribe_spec(
    s: LedgerView,
    subscriber: AccountId,
    plan_id: u64,
    now: u64,
    sequence: u32,
) -> (LedgerView, Result<u64, VowenaError>) {
    if !s.plans.contains_key(plan_id) {
        (s, Err(VowenaError::PlanNotFound))
    } else if !s.plans[plan_id].active {
        (s, Err(VowenaError::PlanInactive))
    } else {
        let plan = s.plans[plan_id];
        let sub_id = s.next_sub_id;
        let sub = Subscription { plan_id, ..new_subscription(sub_id, plan, subscriber, now) };
        (
            LedgerView { next_sub_id: (sub_id + 1) as u64, ..s }.record(
                approval_for(plan, subscriber, signup_periods(plan), sequence),
            ).put_sub(sub).add_subscriber_sub(subscriber, sub_id).add_plan_sub(
                plan_id,
                sub_id,
            ).record(Effect::Emit(Event::SubscriptionCreated { sub_id, plan_id, subscriber })),
            Ok(sub_id),
        )
    }
}

/// The ledger and the result of `cancel`.
pub open spec fn cancel_spec(s: LedgerView, caller: AccountId, sub_id: u64, now: u64) -> (
    LedgerView,
    Result<(), VowenaError>,
) {
    if !s.subs.contains_key(sub_id) {
        (s, Err(VowenaError::SubNotFound))
    } else {
        let sub = s.subs[sub_id];
        let plan = s.plans[sub.plan_id];
        if caller != sub.subscriber && caller != plan.merchant {
            (s, Err(VowenaError::Unauthorized))
        } else {
            let cancelled = Subscription {
                status: SubscriptionStatus::Cancelled,
                cancelled_at: now,
                ..sub
            };
            (
                s.put_sub(cancelled).remove_plan_sub(sub.plan_id, sub.id).record(
                    Effect::Emit(
                        Event::SubscriptionCancelled { sub_id: sub.id, subscriber: sub.subscriber },
                    ),
                ),
                Ok(()),
            )
        }
    }
}

/// The ledger and the result of `refund`.
pub open spec fn refund_spec(s: LedgerView, sub_id: u64, amount: i128) -> (
    LedgerView,
    Result<(), VowenaError>,
) {
    if !s.subs.contains_key(sub_id) {
        (s, Err(VowenaError::SubNotFound))
    } else {
        let sub = s.subs[sub_id];
        let plan = s.plans[sub.plan_id];
        (
            s.record(
                Effect::Transfer {
                    token: plan.token,
                    from: plan.merchant,
                    to: sub.subscriber,
                    amount,
                },
            ).record(
                Effect::Emit(Event::RefundIssued { sub_id: sub.id, amount, subscriber: sub.subscriber }),
            ),
            Ok(()),
        )
    }
}

/// The ledger and the result of `update_plan_amount`.
pub open spec fn update_plan_amount_spec(s: LedgerView, plan_id: u64, new_amount: i128) -> (
    LedgerView,
    Result<(), VowenaError>,
) {
    if !s.plans.contains_key(plan_id) {
        (s, Err(VowenaError::PlanNotFound))
    } else if new_amount <= 0 {
        (s, Err(VowenaError::InvalidAmount))
    } else if new_amount > s.plans[plan_id].price_ceiling {
        (s, Err(VowenaError::AmountExceedsCeiling))
    } else {
        let plan = PlanView { amount: new_amount, ..s.plans[plan_id] };
        (
            s.put_plan(plan).record(
                Effect::Emit(Event::PlanAmountUpdated { plan_id, new_amount }),
            ),
            Ok(()),
        )
    }
}

/// The periods that a reactivated subscription's allowance covers: those the
/// plan still allows, or the default where the plan sets no maximum.
pub open spec fn remaining_periods(plan: PlanView, sub: Subscription) -> u64 {
    if plan.max_periods > 0 {
        if plan.max_periods > sub.periods_billed {
            (plan.max_periods - sub.periods_billed) as u64
        } else {
            0
        }
    } else {
        DEFAULT_APPROVAL_PERIODS
    }
}

/// The ledger after a paused subscription is set going again at `now`,
/// before the charge that follows.
pub open spec fn reactivated_ledger(s: LedgerView, sub_id: u64, now: u64, sequence: u32) -> LedgerView {
    let sub = s.subs[sub_id];
    let plan = s.plans[sub.plan_id];
    let active = Subscription {
        status: SubscriptionStatus::Active,
        failed_at: 0,
        next_billing_time: now,
        paused_at: 0,
        ..sub
    };
    s.record(approval_for(plan, sub.subscriber, remaining_periods(plan, sub), sequence)).put_sub(
        active,
    ).add_plan_sub(sub.plan_id, sub.id)
}

/// The checks of `reactivate` pass.
pub open spec fn reactivation_allowed(s: LedgerView, subscriber: AccountId, sub_id: u64) -> bool {
    &&& s.subs.contains_key(sub_id)
    &&& s.subs[sub_id].subscriber == subscriber
    &&& s.subs[sub_id].status == SubscriptionStatus::Paused
}

/// `reactivate` cannot overflow, and finds the plan and the subscription it charges.
pub open spec fn reactivate_fits(
    s: LedgerView,
    subscriber: AccountId,
    sub_id: u64,
    now: u64,
    sequence: u32,
) -> bool {
    let sub = s.subs[sub_id];
    let plan = s.plans[sub.plan_id];
    reactivation_allowed(s, subscriber, sub_id) ==> {
        &&& s.plans.contains_key(sub.plan_id)
        &&& approval_fits(plan, remaining_periods(plan, sub), sequence)
        &&& charge_ready(reactivated_ledger(s, sub_id, now, sequence), sub_id, now)
    }
}

/// The ledger and the result of `reactivate`. Where the charge that follows
/// needs the subscriber's funds, the reactivation's event waits for it.
pub open spec fn reactivate_spec(
    s: LedgerView,
    subscriber: AccountId,
    sub_id: u64,
    now: u64,
    sequence: u32,
) -> (LedgerView, Result<ChargeStep, VowenaError>) {
    if !s.subs.contains_key(sub_id) {
        (s, Err(VowenaError::SubNotFound))
    } else if s.subs[sub_id].subscriber != subscriber {
        (s, Err(VowenaError::Unauthorized))
    } else if s.subs[sub_id].status != SubscriptionStatus::Paused {
        (s, Err(VowenaError::NotPaused))
    } else {
        let s1 = reactivated_ledger(s, sub_id, now, sequence);
        if needs_funds(s1, sub_id, now) {
            (s1, Ok(ChargeStep::NeedsFunds(funds_check_for(s1, sub_id, true))))
        } else {
            let (s2, charged) = charge_outcome(s1, sub_id, now, 0, 0);
            (
                s2.record(
                    Effect::Emit(Event::SubscriptionReactivated { sub_id, subscriber }),
                ),
                Ok(ChargeStep::Done(charged)),
            )
        }
    }
}

// ---------------------------------------------------------------------------
// Entry points.
// ---------------------------------------------------------------------------

impl VowenaContract {
    /// The ledger of a freshly deployed contract: nothing stored.
    pub fn new() -> (c: VowenaContract)
        ensures
            c@.admin.is_none(),
            c@.next_plan_id == 0,
            c@.next_sub_id == 0,
            c@.next_project_id == 0,
            c@.plans.is_empty(),
            c@.subs.is_empty(),
            c@.projects.is_empty(),
            c@.merchant_plans.is_empty(),
            c@.merchant_projects.is_empty(),
            c@.subscriber_subs.is_empty(),
            c@.plan_subs.is_empty(),
            c@.effects.len() == 0,
            ledger_sound(c@),
    {
        let c = VowenaContract {
            admin: None,
            next_plan_id: 0,
            next_sub_id: 0,
            next_project_id: 0,
            plans: HashMap::new(),
            subscriptions: HashMap::new(),
            projects: HashMap::new(),
            merchant_plans: HashMap::new(),
            merchant_projects: HashMap::new(),
            subscriber_subs: HashMap::new(),
            plan_subs: HashMap::new(),
            effects: Vec::new(),
        };
        assert(c@.projects =~= Map::empty());
        assert(c@.merchant_plans =~= Map::empty());
        assert(c@.merchant_projects =~= Map::empty());
        assert(c@.subscriber_subs =~= Map::empty());
        assert(c@.plan_subs =~= Map::empty());
        c
    }

    /// Binds the contract to `admin` and seeds the plan and subscription
    /// counters at 1. Can only be done once.
    pub fn initialize(&mut self, admin: AccountId) -> (r: Result<(), VowenaError>)
        ensures
            (final(self)@, r) == initialize_spec(old(self)@, admin),
            r is Err ==> final(self)@ == old(self)@,
            ledger_sound(old(self)@) ==> ledger_sound(final(self)@),
    {
        proof {
            if ledger_sound(old(self)@) {
                laws::law_initialize_keeps_ledger_sound(old(self)@, admin);
            }
        }
        if storage::has_admin(self) {
            return Err(VowenaError::AlreadyInitialized);
        }
        storage::set_admin(self, &admin);
        storage::set_next_plan_id(self, 1);
        storage::set_next_sub_id(self, 1);
        Ok(())
    }

    /// Creates a billing plan for `merchant`, named `name`, inside the project
    /// `project_id`, and returns its id. The contract must be initialized.
    pub fn create_plan(
        &mut self,
        merchant: AccountId,
        token: AccountId,
        amount: i128,
        period: u64,
        trial_periods: u32,
        max_periods: u32,
        grace_period: u64,
        price_ceiling: i128,
        name: String,
        project_id: u64,
        now: u64,
    ) -> (r: Result<u64, VowenaError>)
        requires
            create_plan_fits(old(self)@, amount, period, price_ceiling),
        ensures
            (final(self)@, r) == create_plan_spec(
                old(self)@,
                merchant,
                token,
                amount,
                period,
                trial_periods,
                max_periods,
                grace_period,
                price_ceiling,
                name@,
                project_id,
                now,
            ),
            r is Err ==> final(self)@ == old(self)@,
            ledger_sound(old(self)@) ==> ledger_sound(final(self)@),
    {
        proof {
            if ledger_sound(old(self)@) {
                laws::law_create_plan_keeps_ledger_sound(
                    old(self)@,
                    merchant,
                    token,
                    amount,
                    period,
                    trial_periods,
                    max_periods,
                    grace_period,
                    price_ceiling,
                    name@,
                    project_id,
                    now,
                );
            }
        }
        if !storage::has_admin(self) {
            return Err(VowenaError::NotInitialized);
        }
        if amount <= 0 {
            return Err(VowenaError::InvalidAmount);
        }
        if period == 0 {
            return Err(VowenaError::InvalidPeriod);
        }
        if price_ceiling < amount {
            return Err(VowenaError::CeilingBelowAmount);
        }
        let plan_id = storage::get_next_plan_id(self);
        storage::set_next_plan_id(self, plan_id + 1);
        let plan = Plan {
            id: plan_id,
            merchant,
            token,
            amount,
            period,
            trial_periods,
            max_periods,
            grace_period,
            price_ceiling,
            created_at: now,
            active: true,
            name,
            project_id,
        };
        storage::set_plan(self, &plan);
        storage::add_merchant_plan(self, &merchant, plan_id);
        events::emit_plan_created(self, plan_id, &merchant);
        Ok(plan_id)
    }

    /// Creates a project owned by `merchant` and returns its id.
    pub fn create_project(&mut self, merchant: AccountId, name: String, description: String, now: u64) -> (id: u64)
        requires
            old(self)@.next_project_id < u64::MAX,
        ensures
            (final(self)@, id) == create_project_spec(old(self)@, merchant, name@, description@, now),
            ledger_sound(old(self)@) ==> ledger_sound(final(self)@),
    {
        proof {
            if ledger_sound(old(self)@) {
                laws::law_create_project_keeps_ledger_sound(
                    old(self)@,
                    merchant,
                    name@,
                    description@,
                    now,
                );
            }
        }
        let project_id = storage::get_next_project_id(self);
        storage::set_next_project_id(self, project_id + 1);
        let project = Project { id: project_id, merchant, name, description, created_at: now };
        storage::set_project(self, project);
        storage::add_merchant_project(self, &merchant, project_id);
        events::emit_project_created(self, project_id, &merchant);
        project_id
    }

    /// Signs `subscriber` up to a plan: asks for the token allowance that the
    /// plan's billing needs, and creates the subscription. Returns its id.
    pub fn subscribe(&mut self, subscriber: AccountId, plan_id: u64, now: u64, sequence: u32) -> (r:
        Result<u64, VowenaError>)
        requires
            subscribe_fits(old(self)@, plan_id, now, sequence),
        ensures
            (final(self)@, r) == subscribe_spec(old(self)@, subscriber, plan_id, now, sequence),
            r is Err ==> final(self)@ == old(self)@,
            ledger_sound(old(self)@) ==> ledger_sound(final(self)@),
    {
        proof {
            if ledger_sound(old(self)@) {
                laws::law_subscribe_keeps_ledger_sound(old(self)@, subscriber, plan_id, now, sequence);
            }
        }
        if !storage::has_plan(self, plan_id) {
            return Err(VowenaError::PlanNotFound);
        }
        let plan = storage::get_plan(self, plan_id);
        if !plan.active {
            return Err(VowenaError::PlanInactive);
        }
        let periods_for_approval: u64 = if plan.max_periods > 0 {
            plan.max_periods as u64
        } else {
            DEFAULT_APPROVAL_PERIODS
        };
        let approve = approval(&plan, subscriber, periods_for_approval, sequence);
        self.effects.push(approve);

        let sub_id = storage::get_next_sub_id(self);
        storage::set_next_sub_id(self, sub_id + 1);
        let sub = Subscription {
            id: sub_id,
            plan_id,
            subscriber,
            status: SubscriptionStatus::Active,
            created_at: now,
            periods_billed: 0,
            next_billing_time: now + plan.period,
            failed_at: 0,
            migration_target: 0,
            cancelled_at: 0,
            paused_at: 0,
        };
        storage::set_sub(self, &sub);
        storage::add_subscriber_sub(self, &subscriber, sub_id);
        storage::add_plan_sub(self, plan_id, sub_id);
        events::emit_subscription_created(self, sub_id, plan_id, &subscriber);
        Ok(sub_id)
    }

    /// Starts a charge of a subscription. Anyone may call it. An unknown
    /// subscription is not charged.
    pub fn charge(&mut self, sub_id: u64, now: u64) -> (step: ChargeStep)
        requires
            old(self)@.subs.contains_key(sub_id) ==> charge_ready(old(self)@, sub_id, now),
        ensures
            !old(self)@.subs.contains_key(sub_id) ==> step == ChargeStep::Done(false)
                && final(self)@ == old(self)@,
            old(self)@.subs.contains_key(sub_id) ==> match step {
                ChargeStep::Done(charged) => {
                    &&& !needs_funds(old(self)@, sub_id, now)
                    &&& (final(self)@, charged) == charge_outcome(old(self)@, sub_id, now, 0, 0)
                },
                ChargeStep::NeedsFunds(check) => {
                    &&& needs_funds(old(self)@, sub_id, now)
                    &&& final(self)@ == old(self)@
                    &&& check == funds_check_for(old(self)@, sub_id, false)
                },
            },
            ledger_sound(old(self)@) ==> ledger_sound(final(self)@),
    {
        proof {
            if ledger_sound(old(self)@) && old(self)@.subs.contains_key(sub_id) {
                laws::law_charge_keeps_ledger_sound(old(self)@, sub_id, now, 0, 0);
            }
        }
        if !storage::has_sub(self, sub_id) {
            return ChargeStep::Done(false);
        }
        billing::process_charge(self, sub_id, now)
    }

    /// Cancels a subscription. The caller must be its subscriber or the
    /// plan's merchant.
    pub fn cancel(&mut self, caller: AccountId, sub_id: u64, now: u64) -> (r: Result<(), VowenaError>)
        requires
            old(self)@.subs.contains_key(sub_id) ==> old(self)@.plans.contains_key(
                old(self)@.subs[sub_id].plan_id,
            ),
        ensures
            (final(self)@, r) == cancel_spec(old(self)@, caller, sub_id, now),
            r is Err ==> final(self)@ == old(self)@,
            ledger_sound(old(self)@) ==> ledger_sound(final(self)@),
    {
        proof {
            if ledger_sound(old(self)@) {
                laws::law_cancel_keeps_ledger_sound(old(self)@, caller, sub_id, now);
            }
        }
        if !storage::has_sub(self, sub_id) {
            return Err(VowenaError::SubNotFound);
        }
        let mut sub = storage::get_sub(self, sub_id);
        let plan = storage::get_plan(self, sub.plan_id);
        if caller != sub.subscriber && caller != plan.merchant {
            return Err(VowenaError::Unauthorized);
        }
        sub.status = SubscriptionStatus::Cancelled;
        sub.cancelled_at = now;
        storage::set_sub(self, &sub);
        storage::remove_plan_sub(self, sub.plan_id, sub.id);
        events::emit_subscription_cancelled(self, sub.id, &sub.subscriber);
        Ok(())
    }

    /// Sends `amount` of the plan's token from the plan's merchant back to the
    /// subscriber.
    pub fn refund(&mut self, sub_id: u64, amount: i128) -> (r: Result<(), VowenaError>)
        requires
            old(self)@.subs.contains_key(sub_id) ==> old(self)@.plans.contains_key(
                old(self)@.subs[sub_id].plan_id,
            ),
        ensures
            (final(self)@, r) == refund_spec(old(self)@, sub_id, amount),
            r is Err ==> final(self)@ == old(self)@,
            ledger_sound(old(self)@) ==> ledger_sound(final(self)@),
    {
        proof {
            if ledger_sound(old(self)@) {
                laws::law_refund_keeps_ledger_sound(old(self)@, sub_id, amount);
            }
        }
        if !storage::has_sub(self, sub_id) {
            return Err(VowenaError::SubNotFound);
        }
        let sub = storage::get_sub(self, sub_id);
        let plan = storage::get_plan(self, sub.plan_id);
        self.effects.push(
            Effect::Transfer { token: plan.token, from: plan.merchant, to: sub.subscriber, amount },
        );
        events::emit_refund_issued(self, sub.id, amount, &sub.subscriber);
        Ok(())
    }

    /// Changes a plan's billing amount, within its price ceiling.
    pub fn update_plan_amount(&mut self, plan_id: u64, new_amount: i128) -> (r: Result<(), VowenaError>)
        ensures
            (final(self)@, r) == update_plan_amount_spec(old(self)@, plan_id, new_amount),
            r is Err ==> final(self)@ == old(self)@,
            ledger_sound(old(self)@) ==> ledger_sound(final(self)@),
    {
        proof {
            if ledger_sound(old(self)@) {
                laws::law_update_plan_amount_keeps_ledger_sound(old(self)@, plan_id, new_amount);
            }
        }
        if !storage::has_plan(self, plan_id) {
            return Err(VowenaError::PlanNotFound);
        }
        let mut plan = storage::get_plan(self, plan_id);
        if new_amount <= 0 {
            return Err(VowenaError::InvalidAmount);
        }
        if new_amount > plan.price_ceiling {
            return Err(VowenaError::AmountExceedsCeiling);
        }
        plan.amount = new_amount;
        storage::set_plan(self, &plan);
        events::emit_plan_amount_updated(self, plan_id, new_amount);
        Ok(())
    }

    /// Reactivates a paused subscription: asks again for the allowance that
    /// the remaining periods need, sets it going from `now`, and starts a charge.
    pub fn reactivate(&mut self, subscriber: AccountId, sub_id: u64, now: u64, sequence: u32) -> (r:
        Result<ChargeStep, VowenaError>)
        requires
            reactivate_fits(old(self)@, subscriber, sub_id, now, sequence),
        ensures
            (final(self)@, r) == reactivate_spec(old(self)@, subscriber, sub_id, now, sequence),
            r is Err ==> final(self)@ == old(self)@,
            ledger_sound(old(self)@) ==> ledger_sound(final(self)@),
    {
        proof {
            if ledger_sound(old(self)@) {
                laws::law_reactivate_keeps_ledger_sound(old(self)@, subscriber, sub_id, now, sequence);
            }
        }
        if !storage::has_sub(self, sub_id) {
            return Err(VowenaError::SubNotFound);
        }
        let mut sub = storage::get_sub(self, sub_id);
        if sub.subscriber != subscriber {
            return Err(VowenaError::Unauthorized);
        }
        if sub.status != SubscriptionStatus::Paused {
            return Err(VowenaError::NotPaused);
        }
        let plan = storage::get_plan(self, sub.plan_id);
        let periods_for_approval: u64 = if plan.max_periods > 0 {
            let remaining: u32 = if plan.max_periods > sub.periods_billed {
                plan.max_periods - sub.periods_billed
            } else {
                0
            };
            remaining as u64
        } else {
            DEFAULT_APPROVAL_PERIODS
        };
        let approve = approval(&plan, subscriber, periods_for_approval, sequence);
        self.effects.push(approve);

        sub.status = SubscriptionStatus::Active;
        sub.failed_at = 0;
        sub.next_billing_time = now;
        sub.paused_at = 0;
        storage::set_sub(self, &sub);
        storage::add_plan_sub(self, sub.plan_id, sub.id);

        let step = billing::process_charge(self, sub_id, now);
        match step {
            ChargeStep::Done(charged) => {
                events::emit_subscription_reactivated(self, sub_id, &subscriber);
                Ok(ChargeStep::Done(charged))
            },
            ChargeStep::NeedsFunds(check) => {
                Ok(ChargeStep::NeedsFunds(billing::FundsCheck { announce_reactivation: true, ..check }))
            },
        }
    }

    /// Asks every active subscriber of `old_plan_id` to move to
    /// `new_plan_id`. Both plans must belong to `merchant`.
    pub fn request_migration(&mut self, merchant: AccountId, old_plan_id: u64, new_plan_id: u64) -> (r:
        Result<(), VowenaError>)
        requires
            migration::request_migration_ready(old(self)@, merchant, old_plan_id, new_plan_id),
        ensures
            (final(self)@, r) == migration::request_migration_spec(
                old(self)@,
                merchant,
                old_plan_id,
                new_plan_id,
            ),
            r is Err ==> final(self)@ == old(self)@,
            ledger_sound(old(self)@) ==> ledger_sound(final(self)@),
    {
        proof {
            if ledger_sound(old(self)@) {
                laws::law_request_migration_keeps_ledger_sound(
                    old(self)@,
                    merchant,
                    old_plan_id,
                    new_plan_id,
                );
            }
        }
        migration::process_request_migration(self, &merchant, old_plan_id, new_plan_id)
    }

    /// Accepts a pending migration: cancels the subscription and signs the
    /// subscriber up to the target plan, with an allowance for the periods
    /// that a new signup to it would cover. Returns the new subscription's id.
    pub fn accept_migration(&mut self, subscriber: AccountId, sub_id: u64, now: u64, sequence: u32) -> (r:
        Result<u64, VowenaError>)
        requires
            migration::accept_migration_ready(old(self)@, subscriber, sub_id, now, sequence),
        ensures
            (final(self)@, r) == migration::accept_migration_spec(
                old(self)@,
                subscriber,
                sub_id,
                now,
                sequence,
            ),
            r is Err ==> final(self)@ == old(self)@,
            ledger_sound(old(self)@) ==> ledger_sound(final(self)@),
    {
        proof {
            if ledger_sound(old(self)@) {
                laws::law_accept_migration_keeps_ledger_sound(old(self)@, subscriber, sub_id, now, sequence);
            }
        }
        let sub = storage::get_sub(self, sub_id);
        if sub.subscriber == subscriber && sub.migration_target != 0 {
            let plan = storage::get_plan(self, sub.migration_target);
            let periods: u64 = if plan.max_periods > 0 {
                plan.max_periods as u64
            } else {
                DEFAULT_APPROVAL_PERIODS
            };
            let expiration_ledger = billing::approval_expiration(&plan, periods, sequence);
            migration::process_accept_migration(
                self,
                &subscriber,
                sub_id,
                now,
                expiration_ledger,
                periods as u32,
            )
        } else {
            // Refused before any allowance is asked for: no terms are needed.
            migration::process_accept_migration(self, &subscriber, sub_id, now, 0, 0)
        }
    }

    /// Declines a pending migration; the subscription stays on its plan.
    pub fn reject_migration(&mut self, subscriber: AccountId, sub_id: u64) -> (r: Result<(), VowenaError>)
        requires
            old(self)@.subs.contains_key(sub_id),
        ensures
            (final(self)@, r) == migration::reject_migration_spec(old(self)@, subscriber, sub_id),
            r is Err ==> final(self)@ == old(self)@,
            ledger_sound(old(self)@) ==> ledger_sound(final(self)@),
    {
        proof {
            if ledger_sound(old(self)@) {
                laws::law_reject_keeps_ledger_sound(old(self)@, subscriber, sub_id);
            }
        }
        migration::process_reject_migration(self, &subscriber, sub_id)
    }

    // --- Read-only functions ---

    pub fn get_plan(&self, plan_id: u64) -> (r: Result<Plan, VowenaError>)
        ensures
            match r {
                Ok(p) => self@.plans.contains_key(plan_id) && p@ == self@.plans[plan_id],
                Err(e) => !self@.plans.contains_key(plan_id) && e == VowenaError::PlanNotFound,
            },
    {
        if !storage::has_plan(self, plan_id) {
            return Err(VowenaError::PlanNotFound);
        }
        Ok(storage::get_plan(self, plan_id))
    }

    pub fn get_subscription(&self, sub_id: u64) -> (r: Result<Subscription, VowenaError>)
        ensures
            r == if self@.subs.contains_key(sub_id) {
                Ok(self@.subs[sub_id])
            } else {
                Err(VowenaError::SubNotFound)
            },
    {
        if !storage::has_sub(self, sub_id) {
            return Err(VowenaError::SubNotFound);
        }
        Ok(storage::get_sub(self, sub_id))
    }

    /// A project, which must exist.
    pub fn get_project(&self, project_id: u64) -> (p: Project)
        requires
            self@.projects.contains_key(project_id),
        ensures
            p@ == self@.projects[project_id],
    {
        storage::get_project(self, project_id)
    }

    pub fn get_merchant_plans(&self, merchant: AccountId) -> (ids: Vec<u64>)
        ensures
            ids@ == ids_at(self@.merchant_plans, merchant.0),
    {
        storage::get_merchant_plans(self, &merchant)
    }

    pub fn get_merchant_projects(&self, merchant: AccountId) -> (ids: Vec<u64>)
        ensures
            ids@ == ids_at(self@.merchant_projects, merchant.0),
    {
        storage::get_merchant_projects(self, &merchant)
    }

    pub fn get_subscriber_subscriptions(&self, subscriber: AccountId) -> (ids: Vec<u64>)
        ensures
            ids@ == ids_at(self@.subscriber_subs, subscriber.0),
    {
        storage::get_subscriber_subs(self, &subscriber)
    }

    pub fn get_plan_subscribers(&self, plan_id: u64) -> (ids: Vec<u64>)
        ensures
            ids@ == ids_at(self@.plan_subs, plan_id),
    {
        storage::get_plan_subs(self, plan_id)
    }

    /// Hands over, in order, the effects recorded since the last call, for the
    /// host to carry out.
    pub fn take_effects(&mut self) -> (effects: Vec<Effect>)
        ensures
            effects@ == old(self)@.effects,
            final(self)@ == (LedgerView { effects: Seq::empty(), ..old(self)@ }),
    {
        storage::take_effects(self)
    }
}

} // verus!
