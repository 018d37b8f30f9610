use vstd::prelude::*;

use crate::billing::{approval_duration, approval_fits, signup_periods};
use crate::contract::new_subscription;
use crate::errors::VowenaError;
use crate::events::{self, Effect, Event};
use crate::storage::{self, ids_at, LedgerView, VowenaContract};
use crate::types::{AccountId, Subscription, SubscriptionStatus};

verus! {

/// The ledger after marking, one id of `ids` after another, every active
/// subscription among them as asked to move to plan `target`.
pub open spec fn mark_migration(s: LedgerView, ids: Seq<u64>, target: u64) -> LedgerView
    decreases ids.len(),
{
    if ids.len() == 0 {
        s
    } else {
        let before = mark_migration(s, ids.drop_last(), target);
        let sub = before.subs[ids.last()];
        if sub.status == SubscriptionStatus::Active {
            before.put_sub(Subscription { migration_target: target, ..sub })
        } else {
            before
        }
    }
}

/// Marking keeps every subscription key that was there.
proof fn lemma_mark_keeps_keys(s: LedgerView, ids: Seq<u64>, target: u64, k: u64)
    requires
        s.subs.contains_key(k),
    ensures
        mark_migration(s, ids, target).subs.contains_key(k),
        mark_migration(s, ids, target).plans == s.plans,
    decreases ids.len(),
{
    if ids.len() > 0 {
        lemma_mark_keeps_keys(s, ids.drop_last(), target, k);
    }
}

/// Both plans exist, and where the merchant owns both and the new plan is
/// active, every subscription listed under the old plan exists.
pub open spec fn request_migration_ready(
    s: LedgerView,
    merchant: AccountId,
    old_plan_id: u64,
    new_plan_id: u64,
) -> bool {
    &&& s.plans.contains_key(old_plan_id)
    &&& s.plans.contains_key(new_plan_id)
    &&& (s.plans[old_plan_id].merchant == merchant && s.plans[new_plan_id].merchant == merchant
        && s.plans[new_plan_id].active) ==> forall|i: int|
        0 <= i < ids_at(s.plan_subs, old_plan_id).len() ==> s.subs.contains_key(
            #[trigger] ids_at(s.plan_subs, old_plan_id)[i],
        )
}

/// The ledger and the result of a migration request.
pub open spec fn request_migration_spec(
    s: LedgerView,
    merchant: AccountId,
    old_plan_id: u64,
    new_plan_id: u64,
) -> (LedgerView, Result<(), VowenaError>) {
    let old_plan = s.plans[old_plan_id];
    let new_plan = s.plans[new_plan_id];
    if old_plan.merchant != merchant || new_plan.merchant != merchant {
        (s, Err(VowenaError::MerchantMismatch))
    } else if !new_plan.active {
        (s, Err(VowenaError::PlanInactive))
    } else {
        (
            mark_migration(s, ids_at(s.plan_subs, old_plan_id), new_plan_id).record(
                Effect::Emit(Event::MigrationRequested { old_plan_id, new_plan_id }),
            ),
            Ok(()),
        )
    }
}

/// Marks every active subscription of `old_plan_id` as asked to move to
/// `new_plan_id`. Both plans must belong to `merchant`, and the new plan must
/// be active.
pub fn process_request_migration(
    c: &mut VowenaContract,
    merchant: &AccountId,
    old_plan_id: u64,
    new_plan_id: u64,
) -> (r: Result<(), VowenaError>)
    requires
        request_migration_ready(old(c)@, *merchant, old_plan_id, new_plan_id),
    ensures
        (final(c)@, r) == request_migration_spec(old(c)@, *merchant, old_plan_id, new_plan_id),
{
    let old_plan = storage::get_plan(c, old_plan_id);
    let new_plan = storage::get_plan(c, new_plan_id);
    if old_plan.merchant != *merchant || new_plan.merchant != *merchant {
        return Err(VowenaError::MerchantMismatch);
    }
    if !new_plan.active {
        return Err(VowenaError::PlanInactive);
    }
    let ghost start = c@;
    let sub_ids = storage::get_plan_subs(c, old_plan_id);
    let n = sub_ids.len();
    for i in 0..n
        invariant
            n == sub_ids.len(),
            sub_ids@ == ids_at(start.plan_subs, old_plan_id),
            forall|j: int|
                0 <= j < sub_ids@.len() ==> start.subs.contains_key(#[trigger] sub_ids@[j]),
            c@ == mark_migration(start, sub_ids@.take(i as int), new_plan_id),
    {
        let sub_id = sub_ids[i];
        proof {
            assert(sub_ids@.take(i + 1).drop_last() =~= sub_ids@.take(i as int));
            assert(sub_ids@.take(i + 1).last() == sub_id);
            assert(start.subs.contains_key(sub_ids@[i as int]));
            lemma_mark_keeps_keys(start, sub_ids@.take(i as int), new_plan_id, sub_id);
        }
        let mut sub = storage::get_sub(c, sub_id);
        if sub.status == SubscriptionStatus::Active {
            sub.migration_target = new_plan_id;
            storage::set_sub(c, &sub);
        }
    }
    assert(sub_ids@.take(n as int) =~= sub_ids@);
    events::emit_migration_requested(c, old_plan_id, new_plan_id);
    Ok(())
}

/// The allowance periods that a migration grants: the caller's figure, but no
/// more than the plan allows (or the default where it sets no maximum).
pub open spec fn effective_periods(max_periods: u32, allowance_periods: u32) -> u32 {
    let cap: u32 = if max_periods > 0 {
        max_periods
    } else {
        120
    };
    if allowance_periods < cap {
        allowance_periods
    } else {
        cap
    }
}

/// The subscription exists; and where the subscriber owns it and a migration
/// is pending, its target plan exists and the new subscription's id, first
/// billing time and allowance fit.
pub open spec fn process_accept_ready(
    s: LedgerView,
    subscriber: AccountId,
    sub_id: u64,
    now: u64,
    allowance_periods: u32,
) -> bool {
    let sub = s.subs[sub_id];
    let plan = s.plans[sub.migration_target];
    &&& s.subs.contains_key(sub_id)
    &&& (sub.subscriber == subscriber && sub.migration_target != 0) ==> {
        &&& s.plans.contains_key(sub.migration_target)
        &&& s.next_sub_id < u64::MAX
        &&& now + plan.period <= u64::MAX
        &&& i128::MIN <= plan.price_ceiling * effective_periods(plan.max_periods, allowance_periods)
            <= i128::MAX
    }
}

/// The ledger and the result of accepting a migration, with the allowance's
/// expiration and periods given.
pub open spec fn process_accept_spec(
    s: LedgerView,
    subscriber: AccountId,
    sub_id: u64,
    now: u64,
    expiration_ledger: u32,
    allowance_periods: u32,
) -> (LedgerView, Result<u64, VowenaError>) {
    let old_sub = s.subs[sub_id];
    if old_sub.subscriber != subscriber {
        (s, Err(VowenaError::Unauthorized))
    } else if old_sub.migration_target == 0 {
        (s, Err(VowenaError::NoMigrationPending))
    } else {
        let new_plan = s.plans[old_sub.migration_target];
        let cancelled = Subscription {
            status: SubscriptionStatus::Cancelled,
            cancelled_at: now,
            migration_target: 0,
            ..old_sub
        };
        let s1 = s.put_sub(cancelled).remove_plan_sub(cancelled.plan_id, cancelled.id);
        let new_sub_id = s1.next_sub_id;
        let new_sub = new_subscription(new_sub_id, new_plan, subscriber, now);
        let periods = effective_periods(new_plan.max_periods, allowance_periods);
        (
            LedgerView { next_sub_id: (new_sub_id + 1) as u64, ..s1 }.put_sub(
                new_sub,
            ).add_subscriber_sub(subscriber, new_sub_id).add_plan_sub(
                new_plan.id,
                new_sub_id,
            ).record(
                Effect::Approve {
                    token: new_plan.token,
                    owner: subscriber,
                    amount: (new_plan.price_ceiling * periods) as i128,
                    expiration_ledger,
                },
            ).record(
                Effect::Emit(
                    Event::MigrationAccepted { old_sub_id: sub_id, new_sub_id, subscriber },
                ),
            ),
            Ok(new_sub_id),
        )
    }
}

/// Accepts the migration pending on `sub_id`: cancels it and signs
/// `subscriber` up to the target plan, asking for an allowance of at most
/// `allowance_periods` periods that expires at `expiration_ledger`.
pub fn process_accept_migration(
    c: &mut VowenaContract,
    subscriber: &AccountId,
    sub_id: u64,
    now: u64,
    expiration_ledger: u32,
    allowance_periods: u32,
) -> (r: Result<u64, VowenaError>)
    requires
        process_accept_ready(old(c)@, *subscriber, sub_id, now, allowance_periods),
    ensures
        (final(c)@, r) == process_accept_spec(
            old(c)@,
            *subscriber,
            sub_id,
            now,
            expiration_ledger,
            allowance_periods,
        ),
{
    let old_sub = storage::get_sub(c, sub_id);
    if old_sub.subscriber != *subscriber {
        return Err(VowenaError::Unauthorized);
    }
    if old_sub.migration_target == 0 {
        return Err(VowenaError::NoMigrationPending);
    }
    let new_plan = storage::get_plan(c, old_sub.migration_target);

    let mut cancelled_sub = old_sub;
    cancelled_sub.status = SubscriptionStatus::Cancelled;
    cancelled_sub.cancelled_at = now;
    cancelled_sub.migration_target = 0;
    storage::set_sub(c, &cancelled_sub);
    storage::remove_plan_sub(c, cancelled_sub.plan_id, cancelled_sub.id);

    let new_sub_id = storage::get_next_sub_id(c);
    storage::set_next_sub_id(c, new_sub_id + 1);
    let new_sub = Subscription {
        id: new_sub_id,
        plan_id: new_plan.id,
        subscriber: *subscriber,
        status: SubscriptionStatus::Active,
        created_at: now,
        periods_billed: 0,
        next_billing_time: now + new_plan.period,
        failed_at: 0,
        migration_target: 0,
        cancelled_at: 0,
        paused_at: 0,
    };
    storage::set_sub(c, &new_sub);
    storage::add_subscriber_sub(c, subscriber, new_sub_id);
    storage::add_plan_sub(c, new_plan.id, new_sub_id);

    let cap: u32 = if new_plan.max_periods > 0 {
        new_plan.max_periods
    } else {
        120
    };
    let effective: u32 = if allowance_periods < cap {
        allowance_periods
    } else {
        cap
    };
    let allowance = new_plan.price_ceiling * (effective as i128);
    c.effects.push(
        Effect::Approve {
            token: new_plan.token,
            owner: *subscriber,
            amount: allowance,
            expiration_ledger,
        },
    );
    events::emit_migration_accepted(c, sub_id, new_sub_id, subscriber);
    Ok(new_sub_id)
}

/// The allowance terms that accepting a migration of `sub_id` at ledger
/// `sequence` asks for: those of a new signup to the target plan.
pub open spec fn accept_terms(s: LedgerView, subscriber: AccountId, sub_id: u64, sequence: u32) -> (u32, u32) {
    let sub = s.subs[sub_id];
    let plan = s.plans[sub.migration_target];
    if sub.subscriber == subscriber && sub.migration_target != 0 {
        let periods = signup_periods(plan);
        ((sequence + approval_duration(periods, plan.period)) as u32, periods as u32)
    } else {
        (0, 0)
    }
}

/// `accept_migration` can run without overflow or a missing plan.
pub open spec fn accept_migration_ready(
    s: LedgerView,
    subscriber: AccountId,
    sub_id: u64,
    now: u64,
    sequence: u32,
) -> bool {
    let sub = s.subs[sub_id];
    let plan = s.plans[sub.migration_target];
    &&& s.subs.contains_key(sub_id)
    &&& (sub.subscriber == subscriber && sub.migration_target != 0) ==> {
        &&& s.plans.contains_key(sub.migration_target)
        &&& approval_fits(plan, signup_periods(plan), sequence)
        &&& s.next_sub_id < u64::MAX
        &&& now + plan.period <= u64::MAX
    }
}

/// The ledger and the result of `accept_migration`.
pub open spec fn accept_migration_spec(
    s: LedgerView,
    subscriber: AccountId,
    sub_id: u64,
    now: u64,
    sequence: u32,
) -> (LedgerView, Result<u64, VowenaError>) {
    let (expiration, periods) = accept_terms(s, subscriber, sub_id, sequence);
    process_accept_spec(s, subscriber, sub_id, now, expiration, periods)
}

/// The ledger and the result of rejecting a migration.
pub open spec fn reject_migration_spec(s: LedgerView, subscriber: AccountId, sub_id: u64) -> (
    LedgerView,
    Result<(), VowenaError>,
) {
    let sub = s.subs[sub_id];
    if sub.subscriber != subscriber {
        (s, Err(VowenaError::Unauthorized))
    } else if sub.migration_target == 0 {
        (s, Err(VowenaError::NoMigrationPending))
    } else {
        (
            s.put_sub(Subscription { migration_target: 0, ..sub }).record(
                Effect::Emit(Event::MigrationRejected { sub_id, subscriber }),
            ),
            Ok(()),
        )
    }
}

/// Declines the migration pending on `sub_id`.
pub fn process_reject_migration(c: &mut VowenaContract, subscriber: &AccountId, sub_id: u64) -> (r:
    Result<(), VowenaError>)
    requires
        old(c)@.subs.contains_key(sub_id),
    ensures
        (final(c)@, r) == reject_migration_spec(old(c)@, *subscriber, sub_id),
{
    let mut sub = storage::get_sub(c, sub_id);
    if sub.subscriber != *subscriber {
        return Err(VowenaError::Unauthorized);
    }
    if sub.migration_target == 0 {
        return Err(VowenaError::NoMigrationPending);
    }
    sub.migration_target = 0;
    storage::set_sub(c, &sub);
    events::emit_migration_rejected(c, sub_id, subscriber);
    Ok(())
}

} // verus!
