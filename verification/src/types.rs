use vstd::prelude::*;

verus! {

/// An account on the ledger (a subscriber, a merchant, or a token contract),
/// identified by a number that the host assigns to its address.
#[derive(Clone, Copy, Debug, PartialEq, Eq, Structural)]
pub struct AccountId(pub u64);

/// Lifecycle state of a subscription.
#[derive(Clone, Copy, Debug, PartialEq, Eq, Structural)]
pub enum SubscriptionStatus {
    Active,
    Paused,
    Cancelled,
    Expired,
}

/// A merchant's grouping of related plans, with display metadata.
#[derive(Debug)]
pub struct Project {
    pub id: u64,
    pub merchant: AccountId,
    pub name: String,
    pub description: String,
    pub created_at: u64,
}

/// The mathematical value of a [`Project`]: its strings as character sequences.
pub struct ProjectView {
    pub id: u64,
    pub merchant: AccountId,
    pub name: Seq<char>,
    pub description: Seq<char>,
    pub created_at: u64,
}

impl View for Project {
    type V = ProjectView;

    open spec fn view(&self) -> ProjectView {
        ProjectView {
            id: self.id,
            merchant: self.merchant,
            name: self.name@,
            description: self.description@,
            created_at: self.created_at,
        }
    }
}

impl Project {
    /// A copy of this project with the same value.
    pub fn duplicate(&self) -> (res: Project)
        ensures
            res@ == self@,
    {
        Project {
            id: self.id,
            merchant: self.merchant,
            name: self.name.clone(),
            description: self.description.clone(),
            created_at: self.created_at,
        }
    }
}

/// A pricing template that a merchant offers inside one of its projects: what
/// is charged, in which token, how often, and under which trial, grace and
/// ceiling terms.
#[derive(Clone, Debug)]
pub struct Plan {
    pub id: u64,
    pub merchant: AccountId,
    pub token: AccountId,
    pub amount: i128,
    pub period: u64,
    pub trial_periods: u32,
    pub max_periods: u32,
    pub grace_period: u64,
    pub price_ceiling: i128,
    pub created_at: u64,
    pub active: bool,
    /// Display name set by the merchant at creation.
    pub name: String,
    /// The project this plan belongs to.
    pub project_id: u64,
}

/// The mathematical value of a [`Plan`]: its name as a character sequence.
pub struct PlanView {
    pub id: u64,
    pub merchant: AccountId,
    pub token: AccountId,
    pub amount: i128,
    pub period: u64,
    pub trial_periods: u32,
    pub max_periods: u32,
    pub grace_period: u64,
    pub price_ceiling: i128,
    pub created_at: u64,
    pub active: bool,
    pub name: Seq<char>,
    pub project_id: u64,
}

impl View for Plan {
    type V = PlanView;

    open spec fn view(&self) -> PlanView {
        PlanView {
            id: self.id,
            merchant: self.merchant,
            token: self.token,
            amount: self.amount,
            period: self.period,
            trial_periods: self.trial_periods,
            max_periods: self.max_periods,
            grace_period: self.grace_period,
            price_ceiling: self.price_ceiling,
            created_at: self.created_at,
            active: self.active,
            name: self.name@,
            project_id: self.project_id,
        }
    }
}

impl Plan {
    /// A copy of this plan with the same value.
    pub fn duplicate(&self) -> (res: Plan)
        ensures
            res@ == self@,
    {
        Plan {
            id: self.id,
            merchant: self.merchant,
            token: self.token,
            amount: self.amount,
            period: self.period,
            trial_periods: self.trial_periods,
            max_periods: self.max_periods,
            grace_period: self.grace_period,
            price_ceiling: self.price_ceiling,
            created_at: self.created_at,
            active: self.active,
            name: self.name.clone(),
            project_id: self.project_id,
        }
    }
}

/// The billing relationship between one subscriber and one plan.
#[derive(Clone, Copy, Debug, PartialEq, Eq, Structural)]
pub struct Subscription {
    pub id: u64,
    pub plan_id: u64,
    pub subscriber: AccountId,
    pub status: SubscriptionStatus,
    pub created_at: u64,
    pub periods_billed: u32,
    pub next_billing_time: u64,
    pub failed_at: u64,
    pub migration_target: u64,
    pub cancelled_at: u64,
    /// When the subscription was last paused; 0 if it never was or has been
    /// reactivated since.
    pub paused_at: u64,
}

} // verus!
