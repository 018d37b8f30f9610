use vstd::prelude::*;

use crate::billing::{
    settle_outcome, ChargeStep, FundsCheck, advance_fits, can_pay, charge_outcome, charge_plan, charge_ready, charge_sub, needs_funds,
    stage_of, ChargeStage,
};
use crate::errors::VowenaError;
use crate::contract::{
    cancel_spec, create_plan_fits, create_plan_spec, reactivated_ledger, create_project_spec, initialize_spec, reactivate_spec, refund_spec, subscribe_spec,
    update_plan_amount_spec,
};
use crate::events::{Effect, Event};
use crate::migration::{
    accept_migration_spec, mark_migration, process_accept_spec, reject_migration_spec,
    request_migration_spec,
};
use crate::storage::{ids_at, other_than, with_id, without_id, LedgerView};
use crate::types::{AccountId, PlanView, Subscription, SubscriptionStatus};

verus! {

// ---------------------------------------------------------------------------
// The ledger's consistency.
// ---------------------------------------------------------------------------

/// Before `initialize` no plan or subscription exists; after it the plan and
/// subscription counters have started at 1, so that no record takes the id 0,
/// which stands for "none" in a pending migration.
pub open spec fn counters_sound(s: LedgerView) -> bool {
    &&& s.admin.is_none() ==> (forall|k: u64| !#[trigger] s.plans.contains_key(k)) && (forall|
        k: u64,
    | !#[trigger] s.subs.contains_key(k))
    &&& s.admin.is_some() ==> 1 <= s.next_plan_id && 1 <= s.next_sub_id
}

/// Every plan sits under its own nonzero id, below the plan counter, and
/// charges a positive amount each positive period, within its price ceiling.
pub open spec fn plans_sound(s: LedgerView) -> bool {
    forall|k: u64| #[trigger]
        s.plans.contains_key(k) ==> {
            let p = s.plans[k];
            &&& p.id == k
            &&& 0 < k < s.next_plan_id
            &&& 0 < p.amount <= p.price_ceiling
            &&& p.period > 0
        }
}

/// Every subscription sits under its own nonzero id, below the subscription
/// counter, and refers to a stored plan, as does its pending migration.
pub open spec fn subs_sound(s: LedgerView) -> bool {
    forall|k: u64| #[trigger]
        s.subs.contains_key(k) ==> {
            let sub = s.subs[k];
            &&& sub.id == k
            &&& 0 < k < s.next_sub_id
            &&& s.plans.contains_key(sub.plan_id)
            &&& sub.migration_target != 0 ==> s.plans.contains_key(sub.migration_target)
        }
}

/// Every project sits under its own id, below the project counter.
pub open spec fn projects_sound(s: LedgerView) -> bool {
    forall|k: u64| #[trigger]
        s.projects.contains_key(k) ==> s.projects[k].id == k && k < s.next_project_id
}

/// A plan's subscriber list holds exactly its active subscriptions.
pub open spec fn plan_index_exact(s: LedgerView) -> bool {
    forall|p: u64, id: u64|
        #[trigger] ids_at(s.plan_subs, p).contains(id) <==> (s.subs.contains_key(id)
            && s.subs[id].plan_id == p && s.subs[id].status == SubscriptionStatus::Active)
}

/// The ids of `l` rise strictly from first to last.
pub open spec fn ascending(l: Seq<u64>) -> bool {
    forall|i: int, j: int| 0 <= i < j < l.len() ==> l[i] < l[j]
}

/// Every list under every key holds no id twice.
pub open spec fn lists_distinct(m: Map<u64, Seq<u64>>) -> bool {
    forall|k: u64| #[trigger] ids_at(m, k).no_duplicates()
}

/// Every list under every key holds its ids in the order they were handed out.
pub open spec fn lists_ascending(m: Map<u64, Seq<u64>>) -> bool {
    forall|k: u64| #[trigger] ascending(ids_at(m, k))
}

/// No id stands twice in a plan's subscriber list, and the merchant and
/// subscriber lists hold their ids in creation order.
pub open spec fn lists_ordered(s: LedgerView) -> bool {
    &&& lists_distinct(s.plan_subs)
    &&& lists_ascending(s.merchant_plans)
    &&& lists_ascending(s.merchant_projects)
    &&& lists_ascending(s.subscriber_subs)
}

/// A subscriber's list holds exactly the subscriptions that belong to it.
pub open spec fn subscriber_index_exact(s: LedgerView) -> bool {
    forall|a: u64, id: u64|
        #[trigger] ids_at(s.subscriber_subs, a).contains(id) <==> (s.subs.contains_key(id)
            && s.subs[id].subscriber.0 == a)
}

/// A merchant's plan list holds exactly the plans that belong to it.
pub open spec fn merchant_index_exact(s: LedgerView) -> bool {
    forall|m: u64, id: u64|
        #[trigger] ids_at(s.merchant_plans, m).contains(id) <==> (s.plans.contains_key(id)
            && s.plans[id].merchant.0 == m)
}

/// A merchant's project list holds exactly the projects that belong to it.
pub open spec fn project_index_exact(s: LedgerView) -> bool {
    forall|m: u64, id: u64|
        #[trigger] ids_at(s.merchant_projects, m).contains(id) <==> (s.projects.contains_key(id)
            && s.projects[id].merchant.0 == m)
}

/// The ledger is consistent: records under their own fresh ids, references
/// that resolve, plans within their ceilings, and lists that hold exactly
/// what they stand for.
pub open spec fn ledger_sound(s: LedgerView) -> bool {
    &&& counters_sound(s)
    &&& plans_sound(s)
    &&& subs_sound(s)
    &&& projects_sound(s)
    &&& plan_index_exact(s)
    &&& subscriber_index_exact(s)
    &&& merchant_index_exact(s)
    &&& project_index_exact(s)
    &&& lists_ordered(s)
}

// ---------------------------------------------------------------------------
// Facts about the id lists.
// ---------------------------------------------------------------------------

proof fn lemma_filter_other_than(s: Seq<u64>, x: u64, y: u64)
    ensures
        s.filter(other_than(x)).contains(y) <==> (s.contains(y) && y != x),
    decreases s.len(),
{
    reveal_with_fuel(Seq::<_>::filter, 1);
    if s.len() > 0 {
        lemma_filter_other_than(s.drop_last(), x, y);
        let f = s.drop_last().filter(other_than(x));
        assert(s =~= s.drop_last().push(s.last()));
        if s.contains(y) && y != x {
            if s.drop_last().contains(y) {
                let i = choose|i: int| 0 <= i < f.len() && f[i] == y;
                if other_than(x)(s.last()) {
                    assert(f.push(s.last())[i] == y);
                }
            } else {
                assert(s.last() == y);
                assert(f.push(s.last())[f.len() as int] == y);
            }
        }
        if s.filter(other_than(x)).contains(y) {
            if other_than(x)(s.last()) {
                let i = choose|i: int|
                    0 <= i < f.push(s.last()).len() && f.push(s.last())[i] == y;
                if i == f.len() {
                    assert(s[s.len() - 1] == y);
                } else {
                    assert(f[i] == y);
                    let j = choose|j: int| 0 <= j < s.drop_last().len() && s.drop_last()[j] == y;
                    assert(s[j] == y);
                }
            } else {
                let j = choose|j: int| 0 <= j < s.drop_last().len() && s.drop_last()[j] == y;
                assert(s[j] == y);
            }
        }
    }
}

/// What a list holds after an id is appended.
pub proof fn lemma_with_id(m: Map<u64, Seq<u64>>, k: u64, x: u64, j: u64, y: u64)
    ensures
        ids_at(with_id(m, k, x), j).contains(y) <==> (ids_at(m, j).contains(y) || (j == k && y
            == x)),
{
    if j == k {
        let l = ids_at(m, k);
        if l.contains(y) {
            let i = choose|i: int| 0 <= i < l.len() && l[i] == y;
            assert(l.push(x)[i] == y);
        }
        if y == x {
            assert(l.push(x)[l.len() as int] == x);
        }
        if l.push(x).contains(y) && y != x {
            let i = choose|i: int| 0 <= i < l.push(x).len() && l.push(x)[i] == y;
            assert(l[i] == y);
        }
    }
}

/// What a list holds after an id is dropped from it.
pub proof fn lemma_without_id(m: Map<u64, Seq<u64>>, k: u64, x: u64, j: u64, y: u64)
    ensures
        ids_at(without_id(m, k, x), j).contains(y) <==> (ids_at(m, j).contains(y) && !(j == k
            && y == x)),
{
    if j == k {
        lemma_filter_other_than(ids_at(m, k), x, y);
    }
}


/// Appending an id that a list lacks keeps it free of repeats.
proof fn lemma_push_distinct(l: Seq<u64>, x: u64)
    requires
        l.no_duplicates(),
        !l.contains(x),
    ensures
        l.push(x).no_duplicates(),
{
    let t = l.push(x);
    assert forall|i: int, j: int| 0 <= i < t.len() && 0 <= j < t.len() && i != j implies t[i]
        != t[j] by {
        if i < l.len() {
            assert(t[i] == l[i]);
        }
        if j < l.len() {
            assert(t[j] == l[j]);
        }
    }
}

/// Appending an id above every id of a list keeps it ascending.
proof fn lemma_push_ascending(l: Seq<u64>, x: u64)
    requires
        ascending(l),
        forall|y: u64| #[trigger] l.contains(y) ==> y < x,
    ensures
        ascending(l.push(x)),
{
    let t = l.push(x);
    assert forall|i: int, j: int| 0 <= i < j < t.len() implies t[i] < t[j] by {
        assert(t[i] == l[i]);
        assert(l.contains(l[i]));
        if j < l.len() {
            assert(t[j] == l[j]);
        }
    }
}

/// Dropping an id from a list keeps it free of repeats.
proof fn lemma_filter_distinct(s: Seq<u64>, x: u64)
    requires
        s.no_duplicates(),
    ensures
        s.filter(other_than(x)).no_duplicates(),
    decreases s.len(),
{
    reveal_with_fuel(Seq::<_>::filter, 1);
    if s.len() > 0 {
        let r = s.drop_last();
        assert(r.no_duplicates()) by {
            assert forall|i: int, j: int| 0 <= i < r.len() && 0 <= j < r.len() && i != j implies r[i]
                != r[j] by {
                assert(r[i] == s[i] && r[j] == s[j]);
            }
        }
        lemma_filter_distinct(r, x);
        if other_than(x)(s.last()) {
            assert(!r.contains(s.last())) by {
                if r.contains(s.last()) {
                    let i = choose|i: int| 0 <= i < r.len() && r[i] == s.last();
                    assert(s[i] == s[s.len() - 1]);
                }
            }
            lemma_filter_other_than(r, x, s.last());
            lemma_push_distinct(r.filter(other_than(x)), s.last());
        }
    }
}

/// Appending to one list an id that it lacks keeps every list free of repeats.
proof fn lemma_with_id_distinct(m: Map<u64, Seq<u64>>, k: u64, x: u64)
    requires
        lists_distinct(m),
        !ids_at(m, k).contains(x),
    ensures
        lists_distinct(with_id(m, k, x)),
{
    assert forall|j: u64| #[trigger] ids_at(with_id(m, k, x), j).no_duplicates() by {
        if j == k {
            lemma_push_distinct(ids_at(m, k), x);
        } else {
            assert(ids_at(with_id(m, k, x), j) == ids_at(m, j));
        }
    }
}

/// Dropping an id from one list keeps every list free of repeats.
proof fn lemma_without_id_distinct(m: Map<u64, Seq<u64>>, k: u64, x: u64)
    requires
        lists_distinct(m),
    ensures
        lists_distinct(without_id(m, k, x)),
{
    assert forall|j: u64| #[trigger] ids_at(without_id(m, k, x), j).no_duplicates() by {
        if j == k {
            assert(ids_at(m, k).no_duplicates());
            lemma_filter_distinct(ids_at(m, k), x);
        } else {
            assert(ids_at(without_id(m, k, x), j) == ids_at(m, j));
        }
    }
}

/// Appending to one list an id above all of its ids keeps every list ascending.
proof fn lemma_with_id_ascending(m: Map<u64, Seq<u64>>, k: u64, x: u64)
    requires
        lists_ascending(m),
        forall|y: u64| #[trigger] ids_at(m, k).contains(y) ==> y < x,
    ensures
        lists_ascending(with_id(m, k, x)),
{
    assert forall|j: u64| #[trigger] ascending(ids_at(with_id(m, k, x), j)) by {
        if j == k {
            assert(ascending(ids_at(m, k)));
            lemma_push_ascending(ids_at(m, k), x);
        } else {
            assert(ids_at(with_id(m, k, x), j) == ids_at(m, j));
        }
    }
}

// ---------------------------------------------------------------------------
// Every entry point keeps the ledger consistent.
// ---------------------------------------------------------------------------

/// Initializing keeps the ledger consistent.
pub proof fn law_initialize_keeps_ledger_sound(s: LedgerView, admin: AccountId)
    requires
        ledger_sound(s),
    ensures
        ledger_sound(initialize_spec(s, admin).0),
{
}

/// Creating a project keeps the ledger consistent.
pub proof fn law_create_project_keeps_ledger_sound(
    s: LedgerView,
    merchant: AccountId,
    name: Seq<char>,
    description: Seq<char>,
    now: u64,
)
    requires
        ledger_sound(s),
        s.next_project_id < u64::MAX,
    ensures
        ledger_sound(create_project_spec(s, merchant, name, description, now).0),
{
    let t = create_project_spec(s, merchant, name, description, now).0;
    let id = s.next_project_id;
    assert(!s.projects.contains_key(id));
    assert forall|m: u64, j: u64|
        #[trigger] ids_at(t.merchant_projects, m).contains(j) <==> (t.projects.contains_key(j)
            && t.projects[j].merchant.0 == m) by {
        lemma_with_id(s.merchant_projects, merchant.0, id, m, j);
    }
    lemma_with_id_ascending(s.merchant_projects, merchant.0, id);
}

/// Creating a plan keeps the ledger consistent.
pub proof fn law_create_plan_keeps_ledger_sound(
    s: LedgerView,
    merchant: AccountId,
    token: AccountId,
    amount: i128,
    period: u64,
    trial_periods: u32,
    max_periods: u32,
    grace_period: u64,
    price_ceiling: i128,
    name: Seq<char>,
    project_id: u64,
    now: u64,
)
    requires
        ledger_sound(s),
        create_plan_fits(s, amount, period, price_ceiling),
    ensures
        ledger_sound(
            create_plan_spec(
                s,
                merchant,
                token,
                amount,
                period,
                trial_periods,
                max_periods,
                grace_period,
                price_ceiling,
                name,
                project_id,
                now,
            ).0,
        ),
{
    let t = create_plan_spec(
        s,
        merchant,
        token,
        amount,
        period,
        trial_periods,
        max_periods,
        grace_period,
        price_ceiling,
        name,
        project_id,
        now,
    ).0;
    if s.admin.is_some() && amount > 0 && period > 0 && price_ceiling >= amount {
        let plan_id = s.next_plan_id;
        assert(!s.plans.contains_key(plan_id));
        assert forall|m: u64, id: u64|
            #[trigger] ids_at(t.merchant_plans, m).contains(id) <==> (t.plans.contains_key(id)
                && t.plans[id].merchant.0 == m) by {
            lemma_with_id(s.merchant_plans, merchant.0, plan_id, m, id);
        }
        lemma_with_id_ascending(s.merchant_plans, merchant.0, plan_id);
    }
}

/// Signing up keeps the ledger consistent.
pub proof fn law_subscribe_keeps_ledger_sound(
    s: LedgerView,
    subscriber: AccountId,
    plan_id: u64,
    now: u64,
    sequence: u32,
)
    requires
        ledger_sound(s),
        crate::contract::subscribe_fits(s, plan_id, now, sequence),
    ensures
        ledger_sound(subscribe_spec(s, subscriber, plan_id, now, sequence).0),
{
    let t = subscribe_spec(s, subscriber, plan_id, now, sequence).0;
    if s.plans.contains_key(plan_id) && s.plans[plan_id].active {
        let sub_id = s.next_sub_id;
        assert(!s.subs.contains_key(sub_id));
        assert forall|p: u64, id: u64|
            #[trigger] ids_at(t.plan_subs, p).contains(id) <==> (t.subs.contains_key(id)
                && t.subs[id].plan_id == p && t.subs[id].status == SubscriptionStatus::Active) by {
            lemma_with_id(s.plan_subs, plan_id, sub_id, p, id);
        }
        assert forall|a: u64, id: u64|
            #[trigger] ids_at(t.subscriber_subs, a).contains(id) <==> (t.subs.contains_key(id)
                && t.subs[id].subscriber.0 == a) by {
            lemma_with_id(s.subscriber_subs, subscriber.0, sub_id, a, id);
        }
        assert(!ids_at(s.plan_subs, plan_id).contains(sub_id));
        lemma_with_id_distinct(s.plan_subs, plan_id, sub_id);
        lemma_with_id_ascending(s.subscriber_subs, subscriber.0, sub_id);
    }
}

/// A charge attempt keeps the ledger consistent, whatever the funds.
pub proof fn law_charge_keeps_ledger_sound(
    s: LedgerView,
    sub_id: u64,
    now: u64,
    balance: i128,
    allowance: i128,
)
    requires
        ledger_sound(s),
        s.subs.contains_key(sub_id),
    ensures
        ledger_sound(charge_outcome(s, sub_id, now, balance, allowance).0),
{
    let t = charge_outcome(s, sub_id, now, balance, allowance).0;
    let sub = s.subs[sub_id];
    assert forall|p: u64, id: u64|
        #[trigger] ids_at(t.plan_subs, p).contains(id) <==> (t.subs.contains_key(id)
            && t.subs[id].plan_id == p && t.subs[id].status == SubscriptionStatus::Active) by {
        lemma_without_id(s.plan_subs, sub.plan_id, sub.id, p, id);
    }
    lemma_without_id_distinct(s.plan_subs, sub.plan_id, sub.id);
}

/// Cancelling keeps the ledger consistent.
pub proof fn law_cancel_keeps_ledger_sound(s: LedgerView, caller: AccountId, sub_id: u64, now: u64)
    requires
        ledger_sound(s),
    ensures
        ledger_sound(cancel_spec(s, caller, sub_id, now).0),
{
    let t = cancel_spec(s, caller, sub_id, now).0;
    if s.subs.contains_key(sub_id) {
        let sub = s.subs[sub_id];
        assert forall|p: u64, id: u64|
            #[trigger] ids_at(t.plan_subs, p).contains(id) <==> (t.subs.contains_key(id)
                && t.subs[id].plan_id == p && t.subs[id].status == SubscriptionStatus::Active) by {
            lemma_without_id(s.plan_subs, sub.plan_id, sub.id, p, id);
        }
        lemma_without_id_distinct(s.plan_subs, sub.plan_id, sub.id);
    }
}

/// A refund changes no record.
pub proof fn law_refund_keeps_ledger_sound(s: LedgerView, sub_id: u64, amount: i128)
    requires
        ledger_sound(s),
    ensures
        ledger_sound(refund_spec(s, sub_id, amount).0),
{
}

/// Changing a plan's amount keeps the ledger consistent: the new amount stays
/// positive and within the ceiling.
pub proof fn law_update_plan_amount_keeps_ledger_sound(s: LedgerView, plan_id: u64, new_amount: i128)
    requires
        ledger_sound(s),
    ensures
        ledger_sound(update_plan_amount_spec(s, plan_id, new_amount).0),
{
}

/// Marking subscriptions for migration keeps the ledger consistent.
proof fn lemma_mark_keeps_sound(s: LedgerView, ids: Seq<u64>, target: u64)
    requires
        ledger_sound(s),
        s.plans.contains_key(target),
        forall|i: int| 0 <= i < ids.len() ==> s.subs.contains_key(#[trigger] ids[i]),
    ensures
        ledger_sound(mark_migration(s, ids, target)),
        mark_migration(s, ids, target).subs.dom() == s.subs.dom(),
        mark_migration(s, ids, target) == (LedgerView {
            subs: mark_migration(s, ids, target).subs,
            ..s
        }),
    decreases ids.len(),
{
    if ids.len() > 0 {
        assert forall|i: int| 0 <= i < ids.drop_last().len() implies s.subs.contains_key(
            #[trigger] ids.drop_last()[i],
        ) by {
            assert(ids.drop_last()[i] == ids[i]);
        }
        lemma_mark_keeps_sound(s, ids.drop_last(), target);
        assert(s.subs.contains_key(ids[ids.len() - 1]));
        let before = mark_migration(s, ids.drop_last(), target);
        assert(before.subs.contains_key(ids.last()));
        let t = mark_migration(s, ids, target);
        let k = ids.last();
        let sub = before.subs[k];
        assert(sub.id == k);
        if sub.status == SubscriptionStatus::Active {
            assert forall|j: u64| #[trigger] t.subs.contains_key(j) implies t.subs[j].plan_id
                == before.subs[j].plan_id && t.subs[j].status == before.subs[j].status
                && t.subs[j].subscriber == before.subs[j].subscriber by {
                if j == k {
                } else {
                }
            }
            assert(plan_index_exact(t));
            assert(subscriber_index_exact(t));
            assert(subs_sound(t));
        }
        assert(t.subs.dom() =~= s.subs.dom());
    }
}

/// A migration request keeps the ledger consistent.
pub proof fn law_request_migration_keeps_ledger_sound(
    s: LedgerView,
    merchant: AccountId,
    old_plan_id: u64,
    new_plan_id: u64,
)
    requires
        ledger_sound(s),
        crate::migration::request_migration_ready(s, merchant, old_plan_id, new_plan_id),
    ensures
        ledger_sound(request_migration_spec(s, merchant, old_plan_id, new_plan_id).0),
{
    let old_plan = s.plans[old_plan_id];
    let new_plan = s.plans[new_plan_id];
    if old_plan.merchant == merchant && new_plan.merchant == merchant && new_plan.active {
        lemma_mark_keeps_sound(s, ids_at(s.plan_subs, old_plan_id), new_plan_id);
    }
}

/// Accepting a migration keeps the ledger consistent, whatever allowance terms
/// are asked for.
pub proof fn law_accept_keeps_ledger_sound(
    s: LedgerView,
    subscriber: AccountId,
    sub_id: u64,
    now: u64,
    expiration_ledger: u32,
    allowance_periods: u32,
)
    requires
        ledger_sound(s),
        crate::migration::process_accept_ready(s, subscriber, sub_id, now, allowance_periods),
    ensures
        ledger_sound(
            process_accept_spec(s, subscriber, sub_id, now, expiration_ledger, allowance_periods).0,
        ),
{
    let old_sub = s.subs[sub_id];
    if old_sub.subscriber == subscriber && old_sub.migration_target != 0 {
        let t = process_accept_spec(
            s,
            subscriber,
            sub_id,
            now,
            expiration_ledger,
            allowance_periods,
        ).0;
        let new_plan = s.plans[old_sub.migration_target];
        let new_sub_id = s.next_sub_id;
        assert(!s.subs.contains_key(new_sub_id));
        assert forall|p: u64, id: u64|
            #[trigger] ids_at(t.plan_subs, p).contains(id) <==> (t.subs.contains_key(id)
                && t.subs[id].plan_id == p && t.subs[id].status == SubscriptionStatus::Active) by {
            lemma_without_id(s.plan_subs, old_sub.plan_id, old_sub.id, p, id);
            lemma_with_id(
                without_id(s.plan_subs, old_sub.plan_id, old_sub.id),
                new_plan.id,
                new_sub_id,
                p,
                id,
            );
        }
        assert forall|a: u64, id: u64|
            #[trigger] ids_at(t.subscriber_subs, a).contains(id) <==> (t.subs.contains_key(id)
                && t.subs[id].subscriber.0 == a) by {
            lemma_with_id(s.subscriber_subs, subscriber.0, new_sub_id, a, id);
        }
        let dropped = without_id(s.plan_subs, old_sub.plan_id, old_sub.id);
        lemma_without_id_distinct(s.plan_subs, old_sub.plan_id, old_sub.id);
        lemma_without_id(s.plan_subs, old_sub.plan_id, old_sub.id, new_plan.id, new_sub_id);
        assert(!ids_at(s.plan_subs, new_plan.id).contains(new_sub_id));
        lemma_with_id_distinct(dropped, new_plan.id, new_sub_id);
        lemma_with_id_ascending(s.subscriber_subs, subscriber.0, new_sub_id);
    }
}

/// `accept_migration` keeps the ledger consistent.
pub proof fn law_accept_migration_keeps_ledger_sound(
    s: LedgerView,
    subscriber: AccountId,
    sub_id: u64,
    now: u64,
    sequence: u32,
)
    requires
        ledger_sound(s),
        crate::migration::accept_migration_ready(s, subscriber, sub_id, now, sequence),
    ensures
        ledger_sound(accept_migration_spec(s, subscriber, sub_id, now, sequence).0),
{
    let (expiration, periods) = crate::migration::accept_terms(s, subscriber, sub_id, sequence);
    law_accept_keeps_ledger_sound(s, subscriber, sub_id, now, expiration, periods);
}

/// Rejecting a migration keeps the ledger consistent.
pub proof fn law_reject_keeps_ledger_sound(s: LedgerView, subscriber: AccountId, sub_id: u64)
    requires
        ledger_sound(s),
        s.subs.contains_key(sub_id),
    ensures
        ledger_sound(reject_migration_spec(s, subscriber, sub_id).0),
{
}

/// Reactivating keeps the ledger consistent.
pub proof fn law_reactivate_keeps_ledger_sound(
    s: LedgerView,
    subscriber: AccountId,
    sub_id: u64,
    now: u64,
    sequence: u32,
)
    requires
        ledger_sound(s),
    ensures
        ledger_sound(reactivate_spec(s, subscriber, sub_id, now, sequence).0),
{
    if s.subs.contains_key(sub_id) && s.subs[sub_id].subscriber == subscriber
        && s.subs[sub_id].status == SubscriptionStatus::Paused {
        let s1 = crate::contract::reactivated_ledger(s, sub_id, now, sequence);
        let sub = s.subs[sub_id];
        assert forall|p: u64, id: u64|
            #[trigger] ids_at(s1.plan_subs, p).contains(id) <==> (s1.subs.contains_key(id)
                && s1.subs[id].plan_id == p && s1.subs[id].status == SubscriptionStatus::Active) by {
            lemma_with_id(s.plan_subs, sub.plan_id, sub.id, p, id);
        }
        assert(!ids_at(s.plan_subs, sub.plan_id).contains(sub.id));
        lemma_with_id_distinct(s.plan_subs, sub.plan_id, sub.id);
        assert(ledger_sound(s1));
        law_charge_keeps_ledger_sound(s1, sub_id, now, 0, 0);
    }
}


// ---------------------------------------------------------------------------
// What the entry points promise across calls and about money.
// ---------------------------------------------------------------------------

/// The contract can be initialized once: a second `initialize` is refused
/// with `AlreadyInitialized` and changes nothing.
pub proof fn law_initialize_once(s: LedgerView, first: AccountId, second: AccountId)
    ensures
        ({
            let after = initialize_spec(s, first).0;
            initialize_spec(after, second) == (after, Err::<(), VowenaError>(
                VowenaError::AlreadyInitialized,
            ))
        }),
{
}

/// A charge attempt moves money only when a period is due on an active
/// subscription and the subscriber can pay: then exactly the plan's amount,
/// within its ceiling, from the subscriber to the plan's merchant, drawn on
/// the subscriber's allowance. Every other attempt only publishes events.
pub proof fn law_charge_pays_only_when_due_and_payable(
    s: LedgerView,
    sub_id: u64,
    now: u64,
    balance: i128,
    allowance: i128,
)
    requires
        ledger_sound(s),
        s.subs.contains_key(sub_id),
    ensures
        ({
            let (t, charged) = charge_outcome(s, sub_id, now, balance, allowance);
            let sub = s.subs[sub_id];
            let plan = s.plans[sub.plan_id];
            let added = t.effects.skip(s.effects.len() as int);
            let pays = stage_of(sub, plan, now) == ChargeStage::CollectPayment && can_pay(
                plan,
                balance,
                allowance,
            );
            &&& t.effects == s.effects + added
            &&& pays ==> {
                &&& sub.status == SubscriptionStatus::Active
                &&& now >= sub.next_billing_time
                &&& sub.periods_billed >= plan.trial_periods
                &&& 0 < plan.amount <= plan.price_ceiling
                &&& charged
                &&& added == seq![
                    Effect::TransferFrom {
                        token: plan.token,
                        from: sub.subscriber,
                        to: plan.merchant,
                        amount: plan.amount,
                    },
                    Effect::Emit(
                        Event::ChargeSuccess {
                            sub_id,
                            amount: plan.amount,
                            subscriber: sub.subscriber,
                        },
                    ),
                ]
            }
            &&& !pays ==> forall|i: int| 0 <= i < added.len() ==> #[trigger] added[i] is Emit
        }),
{
    let (t, charged) = charge_outcome(s, sub_id, now, balance, allowance);
    let added = t.effects.skip(s.effects.len() as int);
    assert(t.effects =~= s.effects + added);
}

/// How a charge attempt moves a subscription along: terminal subscriptions
/// are left alone; a billed period (paid, or free within the trial) advances
/// the count and the next billing time by one period and keeps it active; the
/// status changes only from paused to cancelled once a whole period has
/// passed since the pause, from active to expired once every allowed period is billed, and
/// from active to paused once a failure is older than the grace period; and a
/// failure is dated by the first failed attempt, cleared by a payment. Nothing
/// else changes: no other subscription, no plan, counter or list, but the
/// subscription's own plan list when it stops being active.
pub proof fn law_charge_transitions(
    s: LedgerView,
    sub_id: u64,
    now: u64,
    balance: i128,
    allowance: i128,
)
    requires
        s.subs[sub_id].id == sub_id,
        charge_ready(s, sub_id, now),
        needs_funds(s, sub_id, now) && can_pay(charge_plan(s, sub_id), balance, allowance)
            ==> advance_fits(charge_sub(s, sub_id), charge_plan(s, sub_id)),
    ensures
        ({
            let (t, charged) = charge_outcome(s, sub_id, now, balance, allowance);
            let sub = s.subs[sub_id];
            let plan = s.plans[sub.plan_id];
            let after = t.subs[sub_id];
            &&& t.subs.dom() == s.subs.dom()
            &&& (sub.status == SubscriptionStatus::Cancelled || sub.status
                == SubscriptionStatus::Expired) ==> t == s && !charged
            &&& charged ==> {
                &&& after.status == SubscriptionStatus::Active
                &&& after.periods_billed == sub.periods_billed + 1
                &&& after.next_billing_time == sub.next_billing_time + plan.period
            }
            &&& !charged ==> after.periods_billed == sub.periods_billed
                && after.next_billing_time == sub.next_billing_time
            &&& after.status != sub.status ==> {
                ||| (sub.status == SubscriptionStatus::Paused && after.status
                    == SubscriptionStatus::Cancelled && now >= sub.paused_at + plan.period
                    && after.cancelled_at == now)
                ||| (sub.status == SubscriptionStatus::Active && after.status
                    == SubscriptionStatus::Expired && plan.max_periods > 0 && sub.periods_billed
                    >= plan.max_periods)
                ||| (sub.status == SubscriptionStatus::Active && after.status
                    == SubscriptionStatus::Paused && sub.failed_at > 0 && now >= sub.failed_at
                    + plan.grace_period && after.paused_at == now)
            }
            &&& after.failed_at != sub.failed_at ==> {
                ||| (sub.failed_at == 0 && after.failed_at == now && !charged)
                ||| (after.failed_at == 0 && charged)
            }
            &&& after.id == sub.id && after.plan_id == sub.plan_id && after.subscriber
                == sub.subscriber && after.created_at == sub.created_at && after.migration_target
                == sub.migration_target
            &&& forall|k: u64| k != sub_id ==> #[trigger] t.subs.get(k) == s.subs.get(k)
            &&& t.plans == s.plans && t.projects == s.projects && t.admin == s.admin
            &&& t.next_plan_id == s.next_plan_id && t.next_sub_id == s.next_sub_id
                && t.next_project_id == s.next_project_id
            &&& t.merchant_plans == s.merchant_plans && t.merchant_projects == s.merchant_projects
                && t.subscriber_subs == s.subscriber_subs
            &&& forall|q: u64| q != sub.plan_id ==> #[trigger] ids_at(t.plan_subs, q) == ids_at(
                s.plan_subs,
                q,
            )
        }),
{
    let (t, charged) = charge_outcome(s, sub_id, now, balance, allowance);
    assert(t.subs.dom() =~= s.subs.dom());
}

/// A subscriber is billed at most once per period: right after a charge
/// attempt that bills a period at `now`, a further attempt at the same time
/// bills nothing and changes nothing, unless a whole further period had
/// already passed by `now` (a missed period being caught up).
pub proof fn law_one_charge_per_period(
    s: LedgerView,
    sub_id: u64,
    now: u64,
    balance: i128,
    allowance: i128,
    balance2: i128,
    allowance2: i128,
)
    requires
        ledger_sound(s),
        charge_ready(s, sub_id, now),
        needs_funds(s, sub_id, now) && can_pay(charge_plan(s, sub_id), balance, allowance)
            ==> advance_fits(charge_sub(s, sub_id), charge_plan(s, sub_id)),
        charge_outcome(s, sub_id, now, balance, allowance).1,
        now < s.subs[sub_id].next_billing_time + s.plans[s.subs[sub_id].plan_id].period,
    ensures
        ({
            let t = charge_outcome(s, sub_id, now, balance, allowance).0;
            charge_outcome(t, sub_id, now, balance2, allowance2) == (t, false)
        }),
{
    law_charge_transitions(s, sub_id, now, balance, allowance);
}

/// What marking does to one subscription.
proof fn lemma_mark_effect(s: LedgerView, ids: Seq<u64>, target: u64, id: u64)
    requires
        ledger_sound(s),
        forall|i: int| 0 <= i < ids.len() ==> s.subs.contains_key(#[trigger] ids[i]),
        s.subs.contains_key(id),
    ensures
        mark_migration(s, ids, target).subs[id] == if ids.contains(id) && s.subs[id].status
            == SubscriptionStatus::Active {
            Subscription { migration_target: target, ..s.subs[id] }
        } else {
            s.subs[id]
        },
    decreases ids.len(),
{
    if ids.len() > 0 {
        let rest = ids.drop_last();
        let last = ids.last();
        assert forall|i: int| 0 <= i < rest.len() implies s.subs.contains_key(#[trigger] rest[i]) by {
            assert(rest[i] == ids[i]);
        }
        assert(s.subs.contains_key(ids[ids.len() - 1]));
        lemma_mark_effect(s, rest, target, id);
        lemma_mark_effect(s, rest, target, last);
        assert(ids =~= rest.push(last));
        if rest.contains(id) {
            let i = choose|i: int| 0 <= i < rest.len() && rest[i] == id;
            assert(ids[i] == id);
        }
        if ids.contains(id) && id != last {
            let i = choose|i: int| 0 <= i < ids.len() && ids[i] == id;
            assert(i != ids.len() - 1);
            assert(rest[i] == id);
        }
        if id == last {
            assert(ids[ids.len() - 1] == id);
        }
    }
}

/// A migration request that is granted marks exactly the active subscriptions
/// listed under the old plan as asked to move to the new plan, and changes
/// nothing else about any subscription.
pub proof fn law_request_migration_marks_active_subscriptions(
    s: LedgerView,
    merchant: AccountId,
    old_plan_id: u64,
    new_plan_id: u64,
    id: u64,
)
    requires
        ledger_sound(s),
        crate::migration::request_migration_ready(s, merchant, old_plan_id, new_plan_id),
        request_migration_spec(s, merchant, old_plan_id, new_plan_id).1 is Ok,
        s.subs.contains_key(id),
    ensures
        ({
            let t = request_migration_spec(s, merchant, old_plan_id, new_plan_id).0;
            &&& t.subs.dom() == s.subs.dom()
            &&& t.subs[id] == if s.subs[id].plan_id == old_plan_id && s.subs[id].status
                == SubscriptionStatus::Active {
                Subscription { migration_target: new_plan_id, ..s.subs[id] }
            } else {
                s.subs[id]
            }
        }),
{
    let ids = ids_at(s.plan_subs, old_plan_id);
    lemma_mark_effect(s, ids, new_plan_id, id);
    lemma_mark_keeps_sound(s, ids, new_plan_id);
}

/// Reactivating a paused subscription bills it at once: it is set going
/// again from `now` (active, with no failure on record, due now, no longer
/// paused), and, whatever the subscriber's balance and allowance, once the
/// charge it starts is settled the ledger is that of a charge attempt on the
/// reactivated subscription, followed by the reactivation's event.
pub proof fn law_reactivate_charges_at_once(
    s: LedgerView,
    subscriber: AccountId,
    sub_id: u64,
    now: u64,
    sequence: u32,
    balance: i128,
    allowance: i128,
)
    requires
        s.subs.contains_key(sub_id),
        s.subs[sub_id].id == sub_id,
        s.subs[sub_id].subscriber == subscriber,
        s.subs[sub_id].status == SubscriptionStatus::Paused,
    ensures
        ({
            let s1 = reactivated_ledger(s, sub_id, now, sequence);
            let (t, r) = reactivate_spec(s, subscriber, sub_id, now, sequence);
            let (expected, billed) = charge_outcome(s1, sub_id, now, balance, allowance);
            let announced = expected.record(
                Effect::Emit(Event::SubscriptionReactivated { sub_id, subscriber }),
            );
            &&& s1.subs[sub_id] == (Subscription {
                status: SubscriptionStatus::Active,
                failed_at: 0,
                next_billing_time: now,
                paused_at: 0,
                ..s.subs[sub_id]
            })
            &&& match r {
                Ok(ChargeStep::Done(b)) => t == announced && b == billed,
                Ok(ChargeStep::NeedsFunds(check)) => settle_outcome(
                    t,
                    check,
                    now,
                    balance,
                    allowance,
                ) == (announced, billed),
                Err(_) => false,
            }
        }),
{
}

/// Rejecting a migration undoes its request: a subscription that was active
/// on the old plan with no migration pending, once marked by a granted
/// request, can be rejected by its subscriber, and is then exactly as it was.
pub proof fn law_reject_undoes_request(
    s: LedgerView,
    merchant: AccountId,
    old_plan_id: u64,
    new_plan_id: u64,
    id: u64,
)
    requires
        ledger_sound(s),
        crate::migration::request_migration_ready(s, merchant, old_plan_id, new_plan_id),
        request_migration_spec(s, merchant, old_plan_id, new_plan_id).1 is Ok,
        s.subs.contains_key(id),
        s.subs[id].plan_id == old_plan_id,
        s.subs[id].status == SubscriptionStatus::Active,
        s.subs[id].migration_target == 0,
    ensures
        ({
            let s1 = request_migration_spec(s, merchant, old_plan_id, new_plan_id).0;
            let (s2, r) = reject_migration_spec(s1, s.subs[id].subscriber, id);
            &&& s1.subs[id].migration_target == new_plan_id
            &&& r is Ok
            &&& s2.subs[id] == s.subs[id]
        }),
{
    law_request_migration_marks_active_subscriptions(s, merchant, old_plan_id, new_plan_id, id);
    assert(s.plans.contains_key(new_plan_id));
}

/// A plan that `create_plan` grants is stored under the id it returns, with
/// exactly the terms it was created with, active, dated `now`; and it is
/// listed last among its merchant's plans.
pub proof fn law_created_plan_is_stored(
    s: LedgerView,
    merchant: AccountId,
    token: AccountId,
    amount: i128,
    period: u64,
    trial_periods: u32,
    max_periods: u32,
    grace_period: u64,
    price_ceiling: i128,
    name: Seq<char>,
    project_id: u64,
    now: u64,
)
    requires
        create_plan_spec(
            s,
            merchant,
            token,
            amount,
            period,
            trial_periods,
            max_periods,
            grace_period,
            price_ceiling,
            name,
            project_id,
            now,
        ).1 is Ok,
    ensures
        ({
            let (t, r) = create_plan_spec(
                s,
                merchant,
                token,
                amount,
                period,
                trial_periods,
                max_periods,
                grace_period,
                price_ceiling,
                name,
                project_id,
                now,
            );
            let id = r->Ok_0;
            &&& t.plans.contains_key(id)
            &&& t.plans[id] == (PlanView {
                id,
                merchant,
                token,
                amount,
                period,
                trial_periods,
                max_periods,
                grace_period,
                price_ceiling,
                created_at: now,
                active: true,
                name,
                project_id,
            })
            &&& ids_at(t.merchant_plans, merchant.0) == ids_at(s.merchant_plans, merchant.0).push(id)
        }),
{
}

/// A signup that `subscribe` grants is listed last among its subscriber's
/// subscriptions and last among its plan's subscribers; later calls never
/// take a subscription off its subscriber's list.
pub proof fn law_subscribe_lists_in_call_order(
    s: LedgerView,
    subscriber: AccountId,
    plan_id: u64,
    now: u64,
    sequence: u32,
)
    requires
        subscribe_spec(s, subscriber, plan_id, now, sequence).1 is Ok,
    ensures
        ({
            let (t, r) = subscribe_spec(s, subscriber, plan_id, now, sequence);
            let id = r->Ok_0;
            &&& ids_at(t.subscriber_subs, subscriber.0) == ids_at(s.subscriber_subs, subscriber.0).push(
                id,
            )
            &&& ids_at(t.plan_subs, plan_id) == ids_at(s.plan_subs, plan_id).push(id)
        }),
{
}

/// A granted migration lists the new subscription last among its
/// subscriber's subscriptions, and the old one stays listed.
pub proof fn law_accept_lists_in_call_order(
    s: LedgerView,
    subscriber: AccountId,
    sub_id: u64,
    now: u64,
    sequence: u32,
)
    requires
        accept_migration_spec(s, subscriber, sub_id, now, sequence).1 is Ok,
    ensures
        ({
            let (t, r) = accept_migration_spec(s, subscriber, sub_id, now, sequence);
            ids_at(t.subscriber_subs, subscriber.0) == ids_at(s.subscriber_subs, subscriber.0).push(
                r->Ok_0,
            )
        }),
{
}

// ---------------------------------------------------------------------------
// What each operation does, stated on its inputs.
// ---------------------------------------------------------------------------

/// A charge attempt only appends to the effects recorded so far.
proof fn lemma_charge_appends_effects(s: LedgerView, sub_id: u64, now: u64, balance: i128, allowance: i128)
    ensures
        ({
            let t = charge_outcome(s, sub_id, now, balance, allowance).0;
            &&& t.effects.len() >= s.effects.len()
            &&& forall|i: int| 0 <= i < s.effects.len() ==> #[trigger] t.effects[i] == s.effects[i]
        }),
{
}

/// Settling a due payment bills a period only when the subscriber holds at
/// least the plan's amount and has allowed at least that much: then the
/// amount moves from the subscriber to the merchant, the period is counted,
/// the next billing time moves one period on and any failure is cleared.
/// With too little balance or too little allowance nothing moves, nothing is
/// billed, a `ChargeFailed` event is published and the failure is dated now,
/// unless an earlier failure is already on record.
pub proof fn law_settled_charge_needs_balance_and_allowance(
    s: LedgerView,
    check: FundsCheck,
    now: u64,
    balance: i128,
    allowance: i128,
)
    requires
        s.subs.contains_key(check.sub_id),
        s.subs[check.sub_id].id == check.sub_id,
        s.plans.contains_key(s.subs[check.sub_id].plan_id),
        ({
            let sub = s.subs[check.sub_id];
            let plan = s.plans[sub.plan_id];
            &&& sub.status == SubscriptionStatus::Active
            &&& now >= sub.next_billing_time
            &&& !(plan.max_periods > 0 && sub.periods_billed >= plan.max_periods)
            &&& sub.periods_billed >= plan.trial_periods
            &&& !(sub.failed_at > 0 && now >= sub.failed_at + plan.grace_period)
            &&& sub.periods_billed < u32::MAX
            &&& sub.next_billing_time + plan.period <= u64::MAX
        }),
    ensures
        ({
            let sub = s.subs[check.sub_id];
            let plan = s.plans[sub.plan_id];
            let (t, charged) = settle_outcome(s, check, now, balance, allowance);
            let after = t.subs[check.sub_id];
            let pays = balance >= plan.amount && allowance >= plan.amount;
            &&& charged == pays
            &&& t.effects.len() > s.effects.len()
            &&& pays ==> {
                &&& t.effects[s.effects.len() as int] == Effect::TransferFrom {
                    token: plan.token,
                    from: sub.subscriber,
                    to: plan.merchant,
                    amount: plan.amount,
                }
                &&& after.periods_billed == sub.periods_billed + 1
                &&& after.next_billing_time == sub.next_billing_time + plan.period
                &&& after.failed_at == 0
                &&& after.status == SubscriptionStatus::Active
            }
            &&& !pays ==> {
                &&& forall|i: int| s.effects.len() <= i < t.effects.len() ==> #[trigger] t.effects[i] is Emit
                &&& t.effects[s.effects.len() as int] == Effect::Emit(
                    Event::ChargeFailed { sub_id: check.sub_id, subscriber: sub.subscriber },
                )
                &&& after.failed_at == if sub.failed_at == 0 {
                    now
                } else {
                    sub.failed_at
                }
                &&& after.periods_billed == sub.periods_billed
                &&& after.next_billing_time == sub.next_billing_time
                &&& after.status == SubscriptionStatus::Active
            }
        }),
{
}

/// Reactivating a paused subscription asks first for an allowance of the
/// plan's price ceiling for each period still to bill: the periods left
/// before the plan's maximum (none once it is reached), or 120 where the plan
/// sets no maximum; it lasts a fifth of those periods' seconds in ledgers,
/// but no less than 17_280 and no more than 3_000_000.
pub proof fn law_reactivation_allowance_covers_remaining_periods(
    s: LedgerView,
    subscriber: AccountId,
    sub_id: u64,
    now: u64,
    sequence: u32,
)
    requires
        crate::contract::reactivate_fits(s, subscriber, sub_id, now, sequence),
        s.subs.contains_key(sub_id),
        s.subs[sub_id].subscriber == subscriber,
        s.subs[sub_id].status == SubscriptionStatus::Paused,
    ensures
        ({
            let sub = s.subs[sub_id];
            let plan = s.plans[sub.plan_id];
            let periods: int = if plan.max_periods > 0 {
                if plan.max_periods > sub.periods_billed {
                    plan.max_periods - sub.periods_billed
                } else {
                    0
                }
            } else {
                120
            };
            let seconds_in_ledgers: int = (periods * plan.period) / 5;
            let lasts: int = if seconds_in_ledgers > 3_000_000 {
                3_000_000
            } else if seconds_in_ledgers < 17_280 {
                17_280
            } else {
                seconds_in_ledgers
            };
            let (t, r) = reactivate_spec(s, subscriber, sub_id, now, sequence);
            &&& r is Ok
            &&& t.effects.len() > s.effects.len()
            &&& forall|i: int| 0 <= i < s.effects.len() ==> #[trigger] t.effects[i] == s.effects[i]
            &&& t.effects[s.effects.len() as int] matches Effect::Approve {
                token,
                owner,
                amount,
                expiration_ledger,
            } && token == plan.token && owner == subscriber && amount == plan.price_ceiling
                * periods && expiration_ledger == sequence + lasts
        }),
{
    let s1 = reactivated_ledger(s, sub_id, now, sequence);
    lemma_charge_appends_effects(s1, sub_id, now, 0, 0);
}

/// `e` asks `owner` for the allowance that a new signup to `plan` at ledger
/// `sequence` needs: the price ceiling for each of the plan's maximum periods,
/// or for 120 periods where it sets none, lasting a fifth of those periods'
/// seconds in ledgers, but no less than 17_280 and no more than 3_000_000.
pub open spec fn signup_allowance_asked(e: Effect, plan: PlanView, owner: AccountId, sequence: u32) -> bool {
    let periods: int = if plan.max_periods > 0 {
        plan.max_periods as int
    } else {
        120
    };
    let seconds_in_ledgers: int = (periods * plan.period) / 5;
    let lasts: int = if seconds_in_ledgers > 3_000_000 {
        3_000_000
    } else if seconds_in_ledgers < 17_280 {
        17_280
    } else {
        seconds_in_ledgers
    };
    e matches Effect::Approve { token, owner: o, amount, expiration_ledger } && token == plan.token
        && o == owner && amount == plan.price_ceiling * periods && expiration_ledger == sequence
        + lasts
}

/// Signing up to a stored, active plan always succeeds: it asks first for the
/// allowance that a new signup needs, then creates under the next id an
/// active subscription that has billed nothing and is first due one period
/// from now, lists it last among its subscriber's and its plan's, and
/// publishes `SubscriptionCreated`. An unknown plan is refused with
/// `PlanNotFound`, an inactive one with `PlanInactive`, and the ledger is left
/// as it was.
pub proof fn law_subscribe_signs_up_fresh(
    s: LedgerView,
    subscriber: AccountId,
    plan_id: u64,
    now: u64,
    sequence: u32,
)
    requires
        crate::contract::subscribe_fits(s, plan_id, now, sequence),
    ensures
        ({
            let (t, r) = subscribe_spec(s, subscriber, plan_id, now, sequence);
            let plan = s.plans[plan_id];
            let new_id = s.next_sub_id;
            let fresh = t.subs[new_id];
            &&& !s.plans.contains_key(plan_id) ==> r == Err::<u64, VowenaError>(
                VowenaError::PlanNotFound,
            ) && t == s
            &&& (s.plans.contains_key(plan_id) && !plan.active) ==> r == Err::<u64, VowenaError>(
                VowenaError::PlanInactive,
            ) && t == s
            &&& (s.plans.contains_key(plan_id) && plan.active) ==> {
                &&& r == Ok::<u64, VowenaError>(new_id)
                &&& t.next_sub_id == new_id + 1
                &&& fresh.id == new_id
                &&& fresh.plan_id == plan_id
                &&& fresh.subscriber == subscriber
                &&& fresh.status == SubscriptionStatus::Active
                &&& fresh.created_at == now
                &&& fresh.periods_billed == 0
                &&& fresh.next_billing_time == now + plan.period
                &&& fresh.failed_at == 0
                &&& fresh.migration_target == 0
                &&& fresh.cancelled_at == 0
                &&& fresh.paused_at == 0
                &&& t.effects.len() == s.effects.len() + 2
                &&& forall|i: int| 0 <= i < s.effects.len() ==> #[trigger] t.effects[i] == s.effects[i]
                &&& signup_allowance_asked(t.effects[s.effects.len() as int], plan, subscriber, sequence)
                &&& t.effects[s.effects.len() as int + 1] == Effect::Emit(
                    Event::SubscriptionCreated { sub_id: new_id, plan_id, subscriber },
                )
                &&& ids_at(t.subscriber_subs, subscriber.0).last() == new_id
                &&& ids_at(t.plan_subs, plan_id).last() == new_id
            }
        }),
{
}

/// Accepting a pending migration cancels the old subscription and signs the
/// subscriber up afresh to the target plan: the new subscription, under the
/// next id, is active, has billed no period (so the target plan's trial and
/// maximum apply in full), is first due one period of the target plan from
/// now, and has no failure, pause or migration on record; the allowance asked
/// for is that of a new signup to the target plan.
pub proof fn law_accepted_migration_starts_fresh(
    s: LedgerView,
    subscriber: AccountId,
    sub_id: u64,
    now: u64,
    sequence: u32,
)
    requires
        ledger_sound(s),
        crate::migration::accept_migration_ready(s, subscriber, sub_id, now, sequence),
        s.subs[sub_id].subscriber == subscriber,
        s.subs[sub_id].migration_target != 0,
    ensures
        ({
            let old_sub = s.subs[sub_id];
            let target = old_sub.migration_target;
            let plan = s.plans[target];
            let new_id = s.next_sub_id;
            let (t, r) = accept_migration_spec(s, subscriber, sub_id, now, sequence);
            let fresh = t.subs[new_id];
            &&& r == Ok::<u64, VowenaError>(new_id)
            &&& fresh.id == new_id
            &&& fresh.plan_id == target
            &&& fresh.subscriber == subscriber
            &&& fresh.status == SubscriptionStatus::Active
            &&& fresh.created_at == now
            &&& fresh.periods_billed == 0
            &&& fresh.next_billing_time == now + plan.period
            &&& fresh.failed_at == 0
            &&& fresh.migration_target == 0
            &&& fresh.cancelled_at == 0
            &&& fresh.paused_at == 0
            &&& t.subs[sub_id].status == SubscriptionStatus::Cancelled
            &&& t.subs[sub_id].cancelled_at == now
            &&& t.subs[sub_id].periods_billed == old_sub.periods_billed
            &&& t.effects.len() == s.effects.len() + 2
            &&& forall|i: int| 0 <= i < s.effects.len() ==> #[trigger] t.effects[i] == s.effects[i]
            &&& signup_allowance_asked(t.effects[s.effects.len() as int], plan, subscriber, sequence)
            &&& t.effects[s.effects.len() as int + 1] == Effect::Emit(
                Event::MigrationAccepted { old_sub_id: sub_id, new_sub_id: new_id, subscriber },
            )
        }),
{
    assert(s.subs.contains_key(sub_id));
    assert(s.plans.contains_key(s.subs[sub_id].migration_target));
}

/// Changing a plan's amount succeeds exactly for a stored plan and an amount
/// above zero and within its price ceiling, whether it raises or cuts the
/// price: the plan then charges the new amount and keeps every other term.
/// Otherwise the ledger is left as it was.
pub proof fn law_update_plan_amount_within_ceiling(s: LedgerView, plan_id: u64, new_amount: i128)
    requires
        s.plans.contains_key(plan_id) ==> s.plans[plan_id].id == plan_id,
    ensures
        ({
            let (t, r) = update_plan_amount_spec(s, plan_id, new_amount);
            let allowed = s.plans.contains_key(plan_id) && 0 < new_amount
                <= s.plans[plan_id].price_ceiling;
            &&& allowed ==> {
                &&& r is Ok
                &&& t.plans.contains_key(plan_id)
                &&& t.plans[plan_id].amount == new_amount
                &&& t.plans[plan_id] == (PlanView { amount: new_amount, ..s.plans[plan_id] })
                &&& t.subs == s.subs
                &&& t.effects == s.effects.push(
                    Effect::Emit(Event::PlanAmountUpdated { plan_id, new_amount }),
                )
            }
            &&& !allowed ==> r is Err && t == s
        }),
{
}

/// Cancelling by the subscription's subscriber or its plan's merchant always
/// succeeds, whatever state the subscription is in (active, paused, or
/// already ended): it is then cancelled as of now and off its plan's list.
/// Anyone else is refused with `Unauthorized`, an unknown subscription with
/// `SubNotFound`, and the ledger is left as it was.
pub proof fn law_cancel_by_subscriber_or_merchant(s: LedgerView, caller: AccountId, sub_id: u64, now: u64)
    requires
        s.subs.contains_key(sub_id) ==> s.subs[sub_id].id == sub_id,
    ensures
        ({
            let (t, r) = cancel_spec(s, caller, sub_id, now);
            &&& !s.subs.contains_key(sub_id) ==> r == Err::<(), VowenaError>(VowenaError::SubNotFound)
                && t == s
            &&& s.subs.contains_key(sub_id) ==> {
                let sub = s.subs[sub_id];
                let plan = s.plans[sub.plan_id];
                &&& (caller == sub.subscriber || caller == plan.merchant) ==> {
                    &&& r is Ok
                    &&& t.subs[sub_id].status == SubscriptionStatus::Cancelled
                    &&& t.subs[sub_id].cancelled_at == now
                    &&& t.subs[sub_id].plan_id == sub.plan_id
                    &&& t.subs[sub_id].subscriber == sub.subscriber
                    &&& t.subs[sub_id].periods_billed == sub.periods_billed
                    &&& !ids_at(t.plan_subs, sub.plan_id).contains(sub_id)
                    &&& t.effects == s.effects.push(
                        Effect::Emit(
                            Event::SubscriptionCancelled { sub_id, subscriber: sub.subscriber },
                        ),
                    )
                }
                &&& !(caller == sub.subscriber || caller == plan.merchant) ==> r == Err::<
                    (),
                    VowenaError,
                >(VowenaError::Unauthorized) && t == s
            }
        }),
{
    if s.subs.contains_key(sub_id) {
        let sub = s.subs[sub_id];
        lemma_without_id(s.plan_subs, sub.plan_id, sub.id, sub.plan_id, sub_id);
    }
}

/// What a charge attempt does before any money is at stake, decided by the
/// subscription, its plan and the time alone: a subscription paused for a
/// whole period since its pause is cancelled, one paused for less is left
/// alone; an ended one, or an active one not yet due, is left alone; a due
/// one that has billed every period its plan allows expires and leaves its
/// plan's list; a due one within its trial bills the period for free (no
/// money moves); and a due one whose failure is older than the grace period
/// is paused as of now and leaves its plan's list.
pub proof fn law_charge_stages(s: LedgerView, sub_id: u64, now: u64, balance: i128, allowance: i128)
    requires
        s.subs.contains_key(sub_id),
        s.subs[sub_id].id == sub_id,
        s.plans.contains_key(s.subs[sub_id].plan_id),
    ensures
        ({
            let sub = s.subs[sub_id];
            let plan = s.plans[sub.plan_id];
            let (t, charged) = charge_outcome(s, sub_id, now, balance, allowance);
            let after = t.subs[sub_id];
            let due = sub.status == SubscriptionStatus::Active && now >= sub.next_billing_time;
            let exhausted = plan.max_periods > 0 && sub.periods_billed >= plan.max_periods;
            let trial = sub.periods_billed < plan.trial_periods;
            let grace_over = sub.failed_at > 0 && now >= sub.failed_at + plan.grace_period;
            &&& (sub.status == SubscriptionStatus::Paused && now >= sub.paused_at + plan.period)
                ==> {
                &&& !charged
                &&& after == (Subscription {
                    status: SubscriptionStatus::Cancelled,
                    cancelled_at: now,
                    ..sub
                })
                &&& !ids_at(t.plan_subs, sub.plan_id).contains(sub_id)
                &&& t.effects == s.effects.push(
                    Effect::Emit(
                        Event::SubscriptionCancelled { sub_id, subscriber: sub.subscriber },
                    ),
                )
            }
            &&& (sub.status == SubscriptionStatus::Paused && now < sub.paused_at + plan.period)
                ==> t == s && !charged
            &&& (sub.status == SubscriptionStatus::Cancelled || sub.status
                == SubscriptionStatus::Expired) ==> t == s && !charged
            &&& (sub.status == SubscriptionStatus::Active && now < sub.next_billing_time) ==> t
                == s && !charged
            &&& (due && exhausted) ==> {
                &&& !charged
                &&& after == (Subscription { status: SubscriptionStatus::Expired, ..sub })
                &&& !ids_at(t.plan_subs, sub.plan_id).contains(sub_id)
                &&& t.effects == s.effects.push(
                    Effect::Emit(Event::SubscriptionExpired { sub_id, subscriber: sub.subscriber }),
                )
            }
            &&& (due && !exhausted && trial && sub.periods_billed < u32::MAX
                && sub.next_billing_time + plan.period <= u64::MAX) ==> {
                &&& charged
                &&& after.status == SubscriptionStatus::Active
                &&& after.periods_billed == sub.periods_billed + 1
                &&& after.next_billing_time == sub.next_billing_time + plan.period
                &&& after.failed_at == sub.failed_at
                &&& t.effects == s.effects.push(
                    Effect::Emit(
                        Event::ChargeSuccess { sub_id, amount: 0, subscriber: sub.subscriber },
                    ),
                )
            }
            &&& (due && !exhausted && !trial && grace_over) ==> {
                &&& !charged
                &&& after == (Subscription {
                    status: SubscriptionStatus::Paused,
                    paused_at: now,
                    ..sub
                })
                &&& !ids_at(t.plan_subs, sub.plan_id).contains(sub_id)
                &&& t.effects == s.effects.push(
                    Effect::Emit(Event::SubscriptionPaused { sub_id, subscriber: sub.subscriber }),
                )
            }
        }),
{
    let sub = s.subs[sub_id];
    lemma_without_id(s.plan_subs, sub.plan_id, sub.id, sub.plan_id, sub_id);
}

/// `create_plan` is refused, leaving the ledger as it was, before
/// `initialize` (`NotInitialized`), for an amount that is not positive
/// (`InvalidAmount`), a zero period (`InvalidPeriod`) or a ceiling below the
/// amount (`CeilingBelowAmount`), checked in that order; otherwise it
/// succeeds with the next plan id and moves the plan counter on by one.
pub proof fn law_create_plan_checks(
    s: LedgerView,
    merchant: AccountId,
    token: AccountId,
    amount: i128,
    period: u64,
    trial_periods: u32,
    max_periods: u32,
    grace_period: u64,
    price_ceiling: i128,
    name: Seq<char>,
    project_id: u64,
    now: u64,
)
    requires
        create_plan_fits(s, amount, period, price_ceiling),
    ensures
        ({
            let (t, r) = create_plan_spec(
                s,
                merchant,
                token,
                amount,
                period,
                trial_periods,
                max_periods,
                grace_period,
                price_ceiling,
                name,
                project_id,
                now,
            );
            &&& s.admin.is_none() ==> r == Err::<u64, VowenaError>(VowenaError::NotInitialized)
                && t == s
            &&& (s.admin.is_some() && amount <= 0) ==> r == Err::<u64, VowenaError>(
                VowenaError::InvalidAmount,
            ) && t == s
            &&& (s.admin.is_some() && amount > 0 && period == 0) ==> r == Err::<u64, VowenaError>(
                VowenaError::InvalidPeriod,
            ) && t == s
            &&& (s.admin.is_some() && amount > 0 && period > 0 && price_ceiling < amount) ==> r
                == Err::<u64, VowenaError>(VowenaError::CeilingBelowAmount) && t == s
            &&& (s.admin.is_some() && amount > 0 && period > 0 && price_ceiling >= amount) ==> {
                &&& r == Ok::<u64, VowenaError>(s.next_plan_id)
                &&& t.next_plan_id == s.next_plan_id + 1
                &&& t.subs == s.subs
                &&& t.effects == s.effects.push(
                    Effect::Emit(Event::PlanCreated { plan_id: s.next_plan_id, merchant }),
                )
            }
        }),
{
}

/// Rejecting a migration succeeds exactly when the caller is the
/// subscription's subscriber and a migration is pending: the pending
/// migration is then dropped and nothing else about the subscription
/// changes. The wrong caller gets `Unauthorized`, a subscription with no
/// migration pending `NoMigrationPending`, and the ledger is left as it was.
pub proof fn law_reject_migration_checks(s: LedgerView, subscriber: AccountId, sub_id: u64)
    requires
        s.subs.contains_key(sub_id),
        s.subs[sub_id].id == sub_id,
    ensures
        ({
            let sub = s.subs[sub_id];
            let (t, r) = reject_migration_spec(s, subscriber, sub_id);
            &&& sub.subscriber != subscriber ==> r == Err::<(), VowenaError>(
                VowenaError::Unauthorized,
            ) && t == s
            &&& (sub.subscriber == subscriber && sub.migration_target == 0) ==> r == Err::<
                (),
                VowenaError,
            >(VowenaError::NoMigrationPending) && t == s
            &&& (sub.subscriber == subscriber && sub.migration_target != 0) ==> {
                &&& r is Ok
                &&& t.subs == s.subs.insert(sub_id, Subscription { migration_target: 0, ..sub })
                &&& t.plans == s.plans && t.plan_subs == s.plan_subs
                &&& t.effects == s.effects.push(
                    Effect::Emit(Event::MigrationRejected { sub_id, subscriber }),
                )
            }
        }),
{
}

} // verus!
