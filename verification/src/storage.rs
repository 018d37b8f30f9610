use vstd::prelude::*;

use std::collections::HashMap;

use crate::events::Effect;
use crate::types::{AccountId, Plan, PlanView, Project, ProjectView, Subscription};

verus! {

broadcast use vstd::std_specs::hash::group_hash_axioms;

/// The contract's ledger state: what it keeps between calls, plus the effects
/// that the calls so far have asked the host to carry out.
///
/// The lists of ids are kept per key: per merchant (plans, projects), per
/// subscriber (subscriptions) and per plan (subscriptions). A key that was never
/// written stands for the empty list.
pub struct VowenaContract {
    pub admin: Option<AccountId>,
    pub next_plan_id: u64,
    pub next_sub_id: u64,
    pub next_project_id: u64,
    pub plans: HashMap<u64, Plan>,
    pub subscriptions: HashMap<u64, Subscription>,
    pub projects: HashMap<u64, Project>,
    pub merchant_plans: HashMap<u64, Vec<u64>>,
    pub merchant_projects: HashMap<u64, Vec<u64>>,
    pub subscriber_subs: HashMap<u64, Vec<u64>>,
    pub plan_subs: HashMap<u64, Vec<u64>>,
    pub effects: Vec<Effect>,
}

/// The mathematical value of the ledger state.
pub struct LedgerView {
    pub admin: Option<AccountId>,
    pub next_plan_id: u64,
    pub next_sub_id: u64,
    pub next_project_id: u64,
    pub plans: Map<u64, PlanView>,
    pub subs: Map<u64, Subscription>,
    pub projects: Map<u64, ProjectView>,
    pub merchant_plans: Map<u64, Seq<u64>>,
    pub merchant_projects: Map<u64, Seq<u64>>,
    pub subscriber_subs: Map<u64, Seq<u64>>,
    pub plan_subs: Map<u64, Seq<u64>>,
    pub effects: Seq<Effect>,
}

pub open spec fn ids_view(m: Map<u64, Vec<u64>>) -> Map<u64, Seq<u64>> {
    m.map_values(|v: Vec<u64>| v@)
}

impl View for VowenaContract {
    type V = LedgerView;

    open spec fn view(&self) -> LedgerView {
        LedgerView {
            admin: self.admin,
            next_plan_id: self.next_plan_id,
            next_sub_id: self.next_sub_id,
            next_project_id: self.next_project_id,
            plans: self.plans@.map_values(|p: Plan| p@),
            subs: self.subscriptions@,
            projects: self.projects@.map_values(|p: Project| p@),
            merchant_plans: ids_view(self.merchant_plans@),
            merchant_projects: ids_view(self.merchant_projects@),
            subscriber_subs: ids_view(self.subscriber_subs@),
            plan_subs: ids_view(self.plan_subs@),
            effects: self.effects@,
        }
    }
}

/// The list stored under `k`; the empty list where nothing was stored.
pub open spec fn ids_at(m: Map<u64, Seq<u64>>, k: u64) -> Seq<u64> {
    if m.contains_key(k) {
        m[k]
    } else {
        Seq::empty()
    }
}

/// `m` with `x` appended to the list under `k`.
pub open spec fn with_id(m: Map<u64, Seq<u64>>, k: u64, x: u64) -> Map<u64, Seq<u64>> {
    m.insert(k, ids_at(m, k).push(x))
}

/// `m` with every occurrence of `x` dropped from the list under `k`
/// (the list under `k` is written even where it was absent).
pub open spec fn without_id(m: Map<u64, Seq<u64>>, k: u64, x: u64) -> Map<u64, Seq<u64>> {
    m.insert(k, ids_at(m, k).filter(other_than(x)))
}

/// The test that keeps every id but `x`.
pub open spec fn other_than(x: u64) -> spec_fn(u64) -> bool {
    |y: u64| y != x
}

impl LedgerView {
    /// The state with `plan` stored under its own id.
    pub open spec fn put_plan(self, plan: PlanView) -> LedgerView {
        LedgerView { plans: self.plans.insert(plan.id, plan), ..self }
    }

    /// The state with `sub` stored under its own id.
    pub open spec fn put_sub(self, sub: Subscription) -> LedgerView {
        LedgerView { subs: self.subs.insert(sub.id, sub), ..self }
    }

    /// The state with `e` recorded after the effects so far.
    pub open spec fn record(self, e: Effect) -> LedgerView {
        LedgerView { effects: self.effects.push(e), ..self }
    }

    pub open spec fn add_plan_sub(self, plan_id: u64, sub_id: u64) -> LedgerView {
        LedgerView { plan_subs: with_id(self.plan_subs, plan_id, sub_id), ..self }
    }

    pub open spec fn remove_plan_sub(self, plan_id: u64, sub_id: u64) -> LedgerView {
        LedgerView { plan_subs: without_id(self.plan_subs, plan_id, sub_id), ..self }
    }

    pub open spec fn add_subscriber_sub(self, subscriber: AccountId, sub_id: u64) -> LedgerView {
        LedgerView { subscriber_subs: with_id(self.subscriber_subs, subscriber.0, sub_id), ..self }
    }

    pub open spec fn add_merchant_plan(self, merchant: AccountId, plan_id: u64) -> LedgerView {
        LedgerView { merchant_plans: with_id(self.merchant_plans, merchant.0, plan_id), ..self }
    }

    pub open spec fn add_merchant_project(self, merchant: AccountId, project_id: u64) -> LedgerView {
        LedgerView {
            merchant_projects: with_id(self.merchant_projects, merchant.0, project_id),
            ..self
        }
    }
}

/// Keys of this ledger's maps are plain integers, which the hash-table model covers.
proof fn lemma_key_model()
    ensures
        vstd::std_specs::hash::obeys_key_model::<u64>(),
        vstd::std_specs::hash::builds_valid_hashers::<std::hash::RandomState>(),
{
}

/// A copy of a list of ids.
fn copy_ids(v: &Vec<u64>) -> (res: Vec<u64>)
    ensures
        res@ == v@,
{
    let mut res: Vec<u64> = Vec::new();
    let n = v.len();
    for i in 0..n
        invariant
            n == v.len(),
            res@ == v@.take(i as int),
    {
        res.push(v[i]);
        assert(v@.take(i as int).push(v@[i as int]) =~= v@.take(i + 1));
    }
    assert(v@.take(n as int) =~= v@);
    res
}

/// The list stored under `k` in `m` (empty where nothing was stored).
fn read_ids(m: &HashMap<u64, Vec<u64>>, k: u64) -> (res: Vec<u64>)
    ensures
        res@ == ids_at(ids_view(m@), k),
{
    proof { lemma_key_model(); }
    match m.get(&k) {
        Some(v) => copy_ids(v),
        None => Vec::new(),
    }
}

/// Appends `x` to the list stored under `k` in `m`.
fn push_id(m: &mut HashMap<u64, Vec<u64>>, k: u64, x: u64)
    ensures
        ids_view(final(m)@) == with_id(ids_view(old(m)@), k, x),
{
    proof { lemma_key_model(); }
    let mut ids = match m.remove(&k) {
        Some(v) => v,
        None => Vec::new(),
    };
    ids.push(x);
    m.insert(k, ids);
    assert(ids_view(final(m)@) =~= with_id(ids_view(old(m)@), k, x));
}

// --- Instance storage ---

pub fn set_admin(c: &mut VowenaContract, admin: &AccountId)
    ensures
        final(c)@ == (LedgerView { admin: Some(*admin), ..old(c)@ }),
{
    c.admin = Some(*admin);
}

pub fn has_admin(c: &VowenaContract) -> (b: bool)
    ensures
        b == c@.admin.is_some(),
{
    c.admin.is_some()
}

pub fn get_next_plan_id(c: &VowenaContract) -> (id: u64)
    ensures
        id == c@.next_plan_id,
{
    c.next_plan_id
}

pub fn set_next_plan_id(c: &mut VowenaContract, id: u64)
    ensures
        final(c)@ == (LedgerView { next_plan_id: id, ..old(c)@ }),
{
    c.next_plan_id = id;
}

pub fn get_next_sub_id(c: &VowenaContract) -> (id: u64)
    ensures
        id == c@.next_sub_id,
{
    c.next_sub_id
}

pub fn set_next_sub_id(c: &mut VowenaContract, id: u64)
    ensures
        final(c)@ == (LedgerView { next_sub_id: id, ..old(c)@ }),
{
    c.next_sub_id = id;
}

pub fn get_next_project_id(c: &VowenaContract) -> (id: u64)
    ensures
        id == c@.next_project_id,
{
    c.next_project_id
}

pub fn set_next_project_id(c: &mut VowenaContract, id: u64)
    ensures
        final(c)@ == (LedgerView { next_project_id: id, ..old(c)@ }),
{
    c.next_project_id = id;
}

// --- Project storage ---

pub fn get_project(c: &VowenaContract, id: u64) -> (p: Project)
    requires
        c@.projects.contains_key(id),
    ensures
        p@ == c@.projects[id],
{
    proof { lemma_key_model(); }
    let p = c.projects.get(&id).unwrap();
    p.duplicate()
}

pub fn has_project(c: &VowenaContract, id: u64) -> (b: bool)
    ensures
        b == c@.projects.contains_key(id),
{
    proof { lemma_key_model(); }
    c.projects.contains_key(&id)
}

pub fn set_project(c: &mut VowenaContract, project: Project)
    ensures
        final(c)@ == (LedgerView {
            projects: old(c)@.projects.insert(project.id, project@),
            ..old(c)@
        }),
{
    proof { lemma_key_model(); }
    let ghost p = project@;
    c.projects.insert(project.id, project);
    assert(final(c)@.projects =~= old(c)@.projects.insert(p.id, p));
}

pub fn add_merchant_project(c: &mut VowenaContract, merchant: &AccountId, project_id: u64)
    ensures
        final(c)@ == old(c)@.add_merchant_project(*merchant, project_id),
{
    push_id(&mut c.merchant_projects, merchant.0, project_id);
}

pub fn get_merchant_projects(c: &VowenaContract, merchant: &AccountId) -> (ids: Vec<u64>)
    ensures
        ids@ == ids_at(c@.merchant_projects, merchant.0),
{
    read_ids(&c.merchant_projects, merchant.0)
}

// --- Plan storage ---

pub fn get_plan(c: &VowenaContract, id: u64) -> (p: Plan)
    requires
        c@.plans.contains_key(id),
    ensures
        p@ == c@.plans[id],
{
    proof { lemma_key_model(); }
    c.plans.get(&id).unwrap().duplicate()
}

pub fn has_plan(c: &VowenaContract, id: u64) -> (b: bool)
    ensures
        b == c@.plans.contains_key(id),
{
    proof { lemma_key_model(); }
    c.plans.contains_key(&id)
}

pub fn set_plan(c: &mut VowenaContract, plan: &Plan)
    ensures
        final(c)@ == old(c)@.put_plan(plan@),
{
    proof { lemma_key_model(); }
    c.plans.insert(plan.id, plan.duplicate());
    assert(final(c)@.plans =~= old(c)@.plans.insert(plan.id, plan@));
}

// --- Subscription storage ---

pub fn get_sub(c: &VowenaContract, id: u64) -> (s: Subscription)
    requires
        c@.subs.contains_key(id),
    ensures
        s == c@.subs[id],
{
    proof { lemma_key_model(); }
    *c.subscriptions.get(&id).unwrap()
}

pub fn has_sub(c: &VowenaContract, id: u64) -> (b: bool)
    ensures
        b == c@.subs.contains_key(id),
{
    proof { lemma_key_model(); }
    c.subscriptions.contains_key(&id)
}

pub fn set_sub(c: &mut VowenaContract, sub: &Subscription)
    ensures
        final(c)@ == old(c)@.put_sub(*sub),
{
    proof { lemma_key_model(); }
    c.subscriptions.insert(sub.id, *sub);
}

// --- Index helpers ---

pub fn add_merchant_plan(c: &mut VowenaContract, merchant: &AccountId, plan_id: u64)
    ensures
        final(c)@ == old(c)@.add_merchant_plan(*merchant, plan_id),
{
    push_id(&mut c.merchant_plans, merchant.0, plan_id);
}

pub fn get_merchant_plans(c: &VowenaContract, merchant: &AccountId) -> (ids: Vec<u64>)
    ensures
        ids@ == ids_at(c@.merchant_plans, merchant.0),
{
    read_ids(&c.merchant_plans, merchant.0)
}

pub fn add_subscriber_sub(c: &mut VowenaContract, subscriber: &AccountId, sub_id: u64)
    ensures
        final(c)@ == old(c)@.add_subscriber_sub(*subscriber, sub_id),
{
    push_id(&mut c.subscriber_subs, subscriber.0, sub_id);
}

pub fn get_subscriber_subs(c: &VowenaContract, subscriber: &AccountId) -> (ids: Vec<u64>)
    ensures
        ids@ == ids_at(c@.subscriber_subs, subscriber.0),
{
    read_ids(&c.subscriber_subs, subscriber.0)
}

pub fn add_plan_sub(c: &mut VowenaContract, plan_id: u64, sub_id: u64)
    ensures
        final(c)@ == old(c)@.add_plan_sub(plan_id, sub_id),
{
    push_id(&mut c.plan_subs, plan_id, sub_id);
}

pub fn get_plan_subs(c: &VowenaContract, plan_id: u64) -> (ids: Vec<u64>)
    ensures
        ids@ == ids_at(c@.plan_subs, plan_id),
{
    read_ids(&c.plan_subs, plan_id)
}

pub fn remove_plan_sub(c: &mut VowenaContract, plan_id: u64, sub_id: u64)
    ensures
        final(c)@ == old(c)@.remove_plan_sub(plan_id, sub_id),
{
    proof { lemma_key_model(); }
    let ids = read_ids(&c.plan_subs, plan_id);
    let ghost pred = other_than(sub_id);
    let mut new_ids: Vec<u64> = Vec::new();
    let n = ids.len();
    for i in 0..n
        invariant
            n == ids.len(),
            pred == other_than(sub_id),
            new_ids@ == ids@.take(i as int).filter(pred),
    {
        let id = ids[i];
        proof {
            assert(ids@.take(i + 1).drop_last() =~= ids@.take(i as int));
            assert(ids@.take(i + 1).last() == id);
            reveal_with_fuel(Seq::<_>::filter, 1);
            assert(pred(id) == (id != sub_id));
            assert(ids@.take(i + 1).filter(pred) == (if pred(id) {
                ids@.take(i as int).filter(pred).push(id)
            } else {
                ids@.take(i as int).filter(pred)
            }));
        }
        if id != sub_id {
            new_ids.push(id);
        }
    }
    assert(ids@.take(n as int) =~= ids@);
    c.plan_subs.insert(plan_id, new_ids);
    assert(ids_view(c.plan_subs@) =~= without_id(ids_view(old(c).plan_subs@), plan_id, sub_id));
}

/// Hands over the effects recorded so far, in order, and forgets them.
pub fn take_effects(c: &mut VowenaContract) -> (effects: Vec<Effect>)
    ensures
        effects@ == old(c)@.effects,
        final(c)@ == (LedgerView { effects: Seq::empty(), ..old(c)@ }),
{
    let mut out: Vec<Effect> = Vec::new();
    std::mem::swap(&mut out, &mut c.effects);
    out
}

} // verus!
