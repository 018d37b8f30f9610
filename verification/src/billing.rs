use vstd::prelude::*;

use crate::events::{Effect, Event};
use crate::storage::{self, LedgerView, VowenaContract};
use crate::types::{AccountId, Plan, PlanView, Subscription, SubscriptionStatus};

verus! {

/// The longest an allowance may last, in ledgers; the token contract refuses
/// expirations further out.
pub const MAX_APPROVAL_LEDGERS: u32 = 3_000_000;

/// The shortest an allowance may last, in ledgers (about a day): the token
/// contract refuses approvals that would lapse before its minimum storage
/// lifetime, which very short periods would otherwise ask for.
pub const MIN_APPROVAL_LEDGERS: u32 = 17_280;

/// How many periods an allowance covers when the plan sets no maximum.
pub const DEFAULT_APPROVAL_PERIODS: u64 = 120;

/// The periods that a new subscription's allowance covers: the plan's maximum,
/// or the default where the plan has none.
pub open spec fn signup_periods(plan: PlanView) -> u64 {
    if plan.max_periods > 0 {
        plan.max_periods as u64
    } else {
        DEFAULT_APPROVAL_PERIODS
    }
}

/// The ledgers that an allowance for `periods` periods of length `period`
/// lasts: a fifth of the covered seconds (ledgers close about every five
/// seconds), kept between [`MIN_APPROVAL_LEDGERS`] and [`MAX_APPROVAL_LEDGERS`].
pub open spec fn approval_duration(periods: u64, period: u64) -> u32 {
    let ideal: int = (periods * period) / 5;
    if ideal > MAX_APPROVAL_LEDGERS {
        MAX_APPROVAL_LEDGERS
    } else if ideal < MIN_APPROVAL_LEDGERS {
        MIN_APPROVAL_LEDGERS
    } else {
        ideal as u32
    }
}

/// Computing the allowance for `periods` periods of `plan` from ledger
/// `sequence` on overflows nothing.
pub open spec fn approval_fits(plan: PlanView, periods: u64, sequence: u32) -> bool {
    &&& i128::MIN <= plan.price_ceiling * periods <= i128::MAX
    &&& sequence + approval_duration(periods, plan.period) <= u32::MAX
}

/// The approval that lets this contract draw `periods` periods at the plan's
/// price ceiling from `owner`, starting at ledger `sequence`.
pub open spec fn approval_for(plan: PlanView, owner: AccountId, periods: u64, sequence: u32) -> Effect {
    Effect::Approve {
        token: plan.token,
        owner,
        amount: (plan.price_ceiling * periods) as i128,
        expiration_ledger: (sequence + approval_duration(periods, plan.period)) as u32,
    }
}

/// The number of ledgers that an allowance for `periods` periods of length
/// `period` lasts.
pub fn approval_ledgers(periods: u64, period: u64) -> (d: u32)
    ensures
        d == approval_duration(periods, period),
        MIN_APPROVAL_LEDGERS <= d <= MAX_APPROVAL_LEDGERS,
{
    assert((periods as u128) * (period as u128) <= u64::MAX * u64::MAX) by (nonlinear_arith);
    let seconds: u128 = (periods as u128) * (period as u128);
    let ideal: u128 = seconds / 5;
    if ideal > MAX_APPROVAL_LEDGERS as u128 {
        MAX_APPROVAL_LEDGERS
    } else if ideal < MIN_APPROVAL_LEDGERS as u128 {
        MIN_APPROVAL_LEDGERS
    } else {
        ideal as u32
    }
}

/// The expiration ledger of an allowance for `periods` periods of `plan`.
pub fn approval_expiration(plan: &Plan, periods: u64, sequence: u32) -> (ledger: u32)
    requires
        approval_fits(plan@, periods, sequence),
    ensures
        ledger == sequence + approval_duration(periods, plan.period),
{
    sequence + approval_ledgers(periods, plan.period)
}

/// The approval for `periods` periods of `plan`, granted by `owner`.
pub fn approval(plan: &Plan, owner: AccountId, periods: u64, sequence: u32) -> (e: Effect)
    requires
        approval_fits(plan@, periods, sequence),
    ensures
        e == approval_for(plan@, owner, periods, sequence),
{
    let allowance = plan.price_ceiling * (periods as i128);
    let expiration_ledger = approval_expiration(plan, periods, sequence);
    Effect::Approve { token: plan.token, owner, amount: allowance, expiration_ledger }
}

/// Where a charge attempt stands, decided from the subscription, its plan and
/// the ledger time alone.
#[derive(Clone, Copy, Debug, PartialEq, Eq, Structural)]
pub enum ChargeStage {
    /// Paused for a whole period since the pause: the subscription is cancelled.
    LapsedWhilePaused,
    /// Paused, and a whole period since the pause has not run out yet.
    WaitingWhilePaused,
    /// Cancelled or expired: nothing happens.
    NotActive,
    /// Active, but the next billing time has not come.
    NotDue,
    /// Due, but every period the plan allows has been billed: it expires.
    ReachedMaxPeriods,
    /// Due within the trial: the period is counted without payment.
    InTrial,
    /// Due, with a failure older than the grace period: it is paused.
    GraceExpired,
    /// Due and payable: the subscriber's balance and allowance decide.
    CollectPayment,
}

/// A whole period has passed since the subscription was paused.
pub open spec fn pause_lapsed(sub: Subscription, plan: PlanView, now: u64) -> bool {
    now >= sub.paused_at + plan.period
}

/// The next billing time has come.
pub open spec fn is_due(sub: Subscription, now: u64) -> bool {
    now >= sub.next_billing_time
}

/// Every period that the plan allows has been billed.
pub open spec fn all_periods_billed(sub: Subscription, plan: PlanView) -> bool {
    plan.max_periods > 0 && sub.periods_billed >= plan.max_periods
}

/// The next period to bill is a trial period.
pub open spec fn in_trial(sub: Subscription, plan: PlanView) -> bool {
    sub.periods_billed < plan.trial_periods
}

/// A payment has failed, and the grace period since has run out.
pub open spec fn grace_over(sub: Subscription, plan: PlanView, now: u64) -> bool {
    sub.failed_at > 0 && now >= sub.failed_at + plan.grace_period
}

/// The stage of a charge attempt on `sub` under `plan` at time `now`: a
/// paused subscription lapses after a whole period paused; an active one
/// that is due expires, gets a free trial period, pauses after its grace
/// period, or pays, in that order of precedence.
pub open spec fn stage_of(sub: Subscription, plan: PlanView, now: u64) -> ChargeStage {
    match sub.status {
        SubscriptionStatus::Paused => if pause_lapsed(sub, plan, now) {
            ChargeStage::LapsedWhilePaused
        } else {
            ChargeStage::WaitingWhilePaused
        },
        SubscriptionStatus::Active => if !is_due(sub, now) {
            ChargeStage::NotDue
        } else if all_periods_billed(sub, plan) {
            ChargeStage::ReachedMaxPeriods
        } else if in_trial(sub, plan) {
            ChargeStage::InTrial
        } else if grace_over(sub, plan, now) {
            ChargeStage::GraceExpired
        } else {
            ChargeStage::CollectPayment
        },
        _ => ChargeStage::NotActive,
    }
}

/// The sum that testing the grace period computes fits in 64 bits.
pub open spec fn stage_computable(sub: Subscription, plan: PlanView, now: u64) -> bool {
    (sub.status == SubscriptionStatus::Active && is_due(sub, now) && !all_periods_billed(sub, plan)
        && !in_trial(sub, plan) && sub.failed_at > 0) ==> sub.failed_at + plan.grace_period
        <= u64::MAX
}

/// Counting one more billed period fits in the counters.
pub open spec fn advance_fits(sub: Subscription, plan: PlanView) -> bool {
    &&& sub.periods_billed < u32::MAX
    &&& sub.next_billing_time + plan.period <= u64::MAX
}

/// `sub` with one more period billed and the next billing time one period later.
pub open spec fn advanced(sub: Subscription, plan: PlanView) -> Subscription {
    Subscription {
        periods_billed: (sub.periods_billed + 1) as u32,
        next_billing_time: (sub.next_billing_time + plan.period) as u64,
        ..sub
    }
}

/// The subscriber can pay the plan's amount: enough balance and enough allowance.
pub open spec fn can_pay(plan: PlanView, balance: i128, allowance: i128) -> bool {
    balance >= plan.amount && allowance >= plan.amount
}

/// Decides the stage of a charge attempt.
pub fn charge_stage(sub: &Subscription, plan: &Plan, now: u64) -> (st: ChargeStage)
    requires
        stage_computable(*sub, plan@, now),
    ensures
        st == stage_of(*sub, plan@, now),
{
    if sub.status == SubscriptionStatus::Paused {
        if now >= sub.paused_at && now - sub.paused_at >= plan.period {
            ChargeStage::LapsedWhilePaused
        } else {
            ChargeStage::WaitingWhilePaused
        }
    } else if sub.status != SubscriptionStatus::Active {
        ChargeStage::NotActive
    } else if now < sub.next_billing_time {
        ChargeStage::NotDue
    } else if plan.max_periods > 0 && sub.periods_billed >= plan.max_periods {
        ChargeStage::ReachedMaxPeriods
    } else if sub.periods_billed < plan.trial_periods {
        ChargeStage::InTrial
    } else if sub.failed_at > 0 && now >= sub.failed_at + plan.grace_period {
        ChargeStage::GraceExpired
    } else {
        ChargeStage::CollectPayment
    }
}

/// What the host must find out before a due charge can be settled: how much
/// of `token` the `owner` holds and has allowed this contract to spend.
#[derive(Clone, Copy, Debug, PartialEq, Eq, Structural)]
pub struct FundsCheck {
    pub sub_id: u64,
    pub token: AccountId,
    pub owner: AccountId,
    pub amount: i128,
    /// The charge follows a reactivation, whose event comes after the charge's.
    pub announce_reactivation: bool,
}

/// The result of starting a charge: settled already, or waiting for the
/// subscriber's balance and allowance.
#[derive(Clone, Copy, Debug, PartialEq, Eq, Structural)]
pub enum ChargeStep {
    Done(bool),
    NeedsFunds(FundsCheck),
}

/// The subscription that a charge of `sub_id` works on, and its plan.
pub open spec fn charge_sub(s: LedgerView, sub_id: u64) -> Subscription {
    s.subs[sub_id]
}

pub open spec fn charge_plan(s: LedgerView, sub_id: u64) -> PlanView {
    s.plans[s.subs[sub_id].plan_id]
}

/// The ledger holds the subscription and its plan, and deciding the charge
/// overflows nothing (a trial period is counted without overflow).
pub open spec fn charge_ready(s: LedgerView, sub_id: u64, now: u64) -> bool {
    let sub = charge_sub(s, sub_id);
    let plan = charge_plan(s, sub_id);
    &&& s.subs.contains_key(sub_id)
    &&& s.plans.contains_key(sub.plan_id)
    &&& stage_computable(sub, plan, now)
    &&& stage_of(sub, plan, now) == ChargeStage::InTrial ==> advance_fits(sub, plan)
}

/// A charge of `sub_id` at `now` needs the subscriber's funds to be settled.
pub open spec fn needs_funds(s: LedgerView, sub_id: u64, now: u64) -> bool {
    stage_of(charge_sub(s, sub_id), charge_plan(s, sub_id), now) == ChargeStage::CollectPayment
}

/// The funds check that a due, payable charge of `sub_id` asks for.
pub open spec fn funds_check_for(s: LedgerView, sub_id: u64, announce: bool) -> FundsCheck {
    FundsCheck {
        sub_id,
        token: charge_plan(s, sub_id).token,
        owner: charge_sub(s, sub_id).subscriber,
        amount: charge_plan(s, sub_id).amount,
        announce_reactivation: announce,
    }
}

/// The ledger after a charge attempt of `sub_id` at `now`, where the subscriber
/// holds `balance` and has allowed `allowance`, and whether a period was billed.
/// The funds matter only at the payment stage.
pub open spec fn charge_outcome(
    s: LedgerView,
    sub_id: u64,
    now: u64,
    balance: i128,
    allowance: i128,
) -> (LedgerView, bool) {
    let sub = charge_sub(s, sub_id);
    let plan = charge_plan(s, sub_id);
    match stage_of(sub, plan, now) {
        ChargeStage::LapsedWhilePaused => {
            let cancelled = Subscription {
                status: SubscriptionStatus::Cancelled,
                cancelled_at: now,
                ..sub
            };
            (
                s.put_sub(cancelled).remove_plan_sub(sub.plan_id, sub.id).record(
                    Effect::Emit(
                        Event::SubscriptionCancelled { sub_id: sub.id, subscriber: sub.subscriber },
                    ),
                ),
                false,
            )
        },
        ChargeStage::ReachedMaxPeriods => {
            let expired = Subscription { status: SubscriptionStatus::Expired, ..sub };
            (
                s.put_sub(expired).remove_plan_sub(sub.plan_id, sub.id).record(
                    Effect::Emit(
                        Event::SubscriptionExpired { sub_id: sub.id, subscriber: sub.subscriber },
                    ),
                ),
                false,
            )
        },
        ChargeStage::InTrial => (
            s.put_sub(advanced(sub, plan)).record(
                Effect::Emit(
                    Event::ChargeSuccess { sub_id: sub.id, amount: 0, subscriber: sub.subscriber },
                ),
            ),
            true,
        ),
        ChargeStage::GraceExpired => {
            let paused = Subscription { status: SubscriptionStatus::Paused, paused_at: now, ..sub };
            (
                s.put_sub(paused).remove_plan_sub(sub.plan_id, sub.id).record(
                    Effect::Emit(
                        Event::SubscriptionPaused { sub_id: sub.id, subscriber: sub.subscriber },
                    ),
                ),
                false,
            )
        },
        ChargeStage::CollectPayment => {
            if can_pay(plan, balance, allowance) {
                let paid = Subscription { failed_at: 0, ..advanced(sub, plan) };
                (
                    s.record(
                        Effect::TransferFrom {
                            token: plan.token,
                            from: sub.subscriber,
                            to: plan.merchant,
                            amount: plan.amount,
                        },
                    ).put_sub(paid).record(
                        Effect::Emit(
                            Event::ChargeSuccess {
                                sub_id: sub.id,
                                amount: plan.amount,
                                subscriber: sub.subscriber,
                            },
                        ),
                    ),
                    true,
                )
            } else {
                let failed = Subscription {
                    failed_at: if sub.failed_at == 0 {
                        now
                    } else {
                        sub.failed_at
                    },
                    ..sub
                };
                (
                    s.put_sub(failed).record(
                        Effect::Emit(
                            Event::ChargeFailed { sub_id: sub.id, subscriber: sub.subscriber },
                        ),
                    ),
                    false,
                )
            }
        },
        _ => (s, false),
    }
}

/// The ledger after a due, payable charge that `check` asked funds for is
/// settled with `balance` and `allowance`, and whether a period was billed:
/// the charge attempt's outcome, followed by the reactivation's event where the
/// charge follows a reactivation.
pub open spec fn settle_outcome(
    s: LedgerView,
    check: FundsCheck,
    now: u64,
    balance: i128,
    allowance: i128,
) -> (LedgerView, bool) {
    let (t, billed) = charge_outcome(s, check.sub_id, now, balance, allowance);
    (
        if check.announce_reactivation {
            t.record(
                Effect::Emit(
                    Event::SubscriptionReactivated { sub_id: check.sub_id, subscriber: check.owner },
                ),
            )
        } else {
            t
        },
        billed,
    )
}

/// Starts a charge of `sub_id` at ledger time `now`. Every stage but payment is
/// settled here; at the payment stage the ledger is left as it was and the
/// host is asked for the subscriber's balance and allowance.
pub fn process_charge(c: &mut VowenaContract, sub_id: u64, now: u64) -> (step: ChargeStep)
    requires
        charge_ready(old(c)@, sub_id, now),
    ensures
        match step {
            ChargeStep::Done(charged) => {
                &&& !needs_funds(old(c)@, sub_id, now)
                &&& (final(c)@, charged) == charge_outcome(old(c)@, sub_id, now, 0, 0)
            },
            ChargeStep::NeedsFunds(check) => {
                &&& needs_funds(old(c)@, sub_id, now)
                &&& final(c)@ == old(c)@
                &&& check == funds_check_for(old(c)@, sub_id, false)
            },
        },
        crate::laws::ledger_sound(old(c)@) ==> crate::laws::ledger_sound(final(c)@),
{
    proof {
        if crate::laws::ledger_sound(old(c)@) {
            crate::laws::law_charge_keeps_ledger_sound(old(c)@, sub_id, now, 0, 0);
        }
    }
    let mut sub = storage::get_sub(c, sub_id);
    let plan = storage::get_plan(c, sub.plan_id);
    let stage = charge_stage(&sub, &plan, now);
    match stage {
        ChargeStage::LapsedWhilePaused => {
            sub.status = SubscriptionStatus::Cancelled;
            sub.cancelled_at = now;
            storage::set_sub(c, &sub);
            storage::remove_plan_sub(c, sub.plan_id, sub.id);
            crate::events::emit_subscription_cancelled(c, sub.id, &sub.subscriber);
            ChargeStep::Done(false)
        },
        ChargeStage::WaitingWhilePaused | ChargeStage::NotActive | ChargeStage::NotDue => {
            ChargeStep::Done(false)
        },
        ChargeStage::ReachedMaxPeriods => {
            sub.status = SubscriptionStatus::Expired;
            storage::set_sub(c, &sub);
            storage::remove_plan_sub(c, sub.plan_id, sub.id);
            crate::events::emit_subscription_expired(c, sub.id, &sub.subscriber);
            ChargeStep::Done(false)
        },
        ChargeStage::InTrial => {
            sub.periods_billed = sub.periods_billed + 1;
            sub.next_billing_time = sub.next_billing_time + plan.period;
            storage::set_sub(c, &sub);
            crate::events::emit_charge_success(c, sub.id, 0, &sub.subscriber);
            ChargeStep::Done(true)
        },
        ChargeStage::GraceExpired => {
            sub.status = SubscriptionStatus::Paused;
            sub.paused_at = now;
            storage::set_sub(c, &sub);
            storage::remove_plan_sub(c, sub.plan_id, sub.id);
            crate::events::emit_subscription_paused(c, sub.id, &sub.subscriber);
            ChargeStep::Done(false)
        },
        ChargeStage::CollectPayment => {
            ChargeStep::NeedsFunds(
                FundsCheck {
                    sub_id,
                    token: plan.token,
                    owner: sub.subscriber,
                    amount: plan.amount,
                    announce_reactivation: false,
                },
            )
        },
    }
}

/// Settles a due, payable charge once the host has read the subscriber's
/// `balance` of the plan's token and the `allowance` granted to this contract.
/// Where `check` follows a reactivation, the reactivation's event is recorded
/// after the charge's.
pub fn complete_charge(
    c: &mut VowenaContract,
    check: FundsCheck,
    now: u64,
    balance: i128,
    allowance: i128,
) -> (charged: bool)
    requires
        charge_ready(old(c)@, check.sub_id, now),
        needs_funds(old(c)@, check.sub_id, now),
        check == funds_check_for(old(c)@, check.sub_id, check.announce_reactivation),
        can_pay(charge_plan(old(c)@, check.sub_id), balance, allowance) ==> advance_fits(
            charge_sub(old(c)@, check.sub_id),
            charge_plan(old(c)@, check.sub_id),
        ),
    ensures
        (final(c)@, charged) == settle_outcome(old(c)@, check, now, balance, allowance),
        crate::laws::ledger_sound(old(c)@) ==> crate::laws::ledger_sound(final(c)@),
{
    proof {
        if crate::laws::ledger_sound(old(c)@) {
            crate::laws::law_charge_keeps_ledger_sound(old(c)@, check.sub_id, now, balance, allowance);
        }
    }
    let mut sub = storage::get_sub(c, check.sub_id);
    let plan = storage::get_plan(c, sub.plan_id);
    let charged = if balance < plan.amount || allowance < plan.amount {
        if sub.failed_at == 0 {
            sub.failed_at = now;
        }
        storage::set_sub(c, &sub);
        crate::events::emit_charge_failed(c, sub.id, &sub.subscriber);
        false
    } else {
        c.effects.push(
            Effect::TransferFrom {
                token: plan.token,
                from: sub.subscriber,
                to: plan.merchant,
                amount: plan.amount,
            },
        );
        sub.periods_billed = sub.periods_billed + 1;
        sub.next_billing_time = sub.next_billing_time + plan.period;
        sub.failed_at = 0;
        storage::set_sub(c, &sub);
        crate::events::emit_charge_success(c, sub.id, plan.amount, &sub.subscriber);
        true
    };
    if check.announce_reactivation {
        crate::events::emit_subscription_reactivated(c, check.sub_id, &check.owner);
    }
    charged
}

} // verus!
