use std::collections::HashMap;

use vowena::billing::{complete_charge, ChargeStep};
use vowena::events::{Effect, Event};
use vowena::storage::VowenaContract;
use vowena::types::{AccountId, Plan, Subscription, SubscriptionStatus};
use vowena::errors::VowenaError;

const MONTH: u64 = 2_592_000; // ~30 days in seconds
const PLAN_AMOUNT: i128 = 9_990_000; // 0.999 USDC (7 decimals)
const PRICE_CEILING: i128 = 15_000_000; // 1.5 USDC
const GRACE_PERIOD: u64 = 2_592_000; // 30 days
const MINT_AMOUNT: i128 = 10_000_000_000; // 1000 USDC

/// A stand-in for the host: it keeps the ledger time and a token's balances
/// and allowances, and carries out the effects that the contract records.
struct TestContext {
    ledger: VowenaContract,
    now: u64,
    sequence: u32,
    admin: AccountId,
    merchant: AccountId,
    subscriber: AccountId,
    token_address: AccountId,
    balances: HashMap<u64, i128>,
    allowances: HashMap<u64, (i128, u32)>,
    events: Vec<Event>,
    next_account: u64,
}

impl TestContext {
    fn generate(&mut self) -> AccountId {
        self.next_account += 1;
        AccountId(self.next_account)
    }

    fn mint(&mut self, to: AccountId, amount: i128) {
        *self.balances.entry(to.0).or_insert(0) += amount;
    }

    fn balance(&self, of: AccountId) -> i128 {
        *self.balances.get(&of.0).unwrap_or(&0)
    }

    fn allowance(&self, owner: AccountId) -> i128 {
        match self.allowances.get(&owner.0) {
            Some((amount, expiration)) if *expiration >= self.sequence => *amount,
            _ => 0,
        }
    }

    fn run_effects(&mut self) {
        for effect in self.ledger.take_effects() {
            match effect {
                Effect::Approve { token, owner, amount, expiration_ledger } => {
                    assert_eq!(token, self.token_address);
                    self.allowances.insert(owner.0, (amount, expiration_ledger));
                },
                Effect::TransferFrom { token, from, to, amount } => {
                    assert_eq!(token, self.token_address);
                    assert!(self.allowance(from) >= amount);
                    assert!(self.balance(from) >= amount);
                    let (left, expiration) = self.allowances[&from.0];
                    self.allowances.insert(from.0, (left - amount, expiration));
                    self.mint(from, -amount);
                    self.mint(to, amount);
                },
                Effect::Transfer { token, from, to, amount } => {
                    assert_eq!(token, self.token_address);
                    assert!(self.balance(from) >= amount);
                    self.mint(from, -amount);
                    self.mint(to, amount);
                },
                Effect::Emit(event) => self.events.push(event),
            }
        }
    }

    fn settle(&mut self, step: ChargeStep) -> bool {
        match step {
            ChargeStep::Done(charged) => {
                self.run_effects();
                charged
            },
            ChargeStep::NeedsFunds(check) => {
                let balance = self.balance(check.owner);
                let allowance = self.allowance(check.owner);
                let charged = complete_charge(&mut self.ledger, check, self.now, balance, allowance);
                self.run_effects();
                charged
            },
        }
    }

    fn initialize(&mut self, admin: AccountId) -> Result<(), VowenaError> {
        let r = self.ledger.initialize(admin);
        self.run_effects();
        r
    }

    fn create_plan(
        &mut self,
        merchant: AccountId,
        token: AccountId,
        amount: i128,
        period: u64,
        trial_periods: u32,
        max_periods: u32,
        grace_period: u64,
        price_ceiling: i128,
    ) -> Result<u64, VowenaError> {
        let now = self.now;
        let r = self.ledger.create_plan(
            merchant,
            token,
            amount,
            period,
            trial_periods,
            max_periods,
            grace_period,
            price_ceiling,
            String::from("Monthly"),
            1,
            now,
        );
        self.run_effects();
        r
    }

    fn subscribe(&mut self, subscriber: AccountId, plan_id: u64) -> Result<u64, VowenaError> {
        let r = self.ledger.subscribe(subscriber, plan_id, self.now, self.sequence);
        self.run_effects();
        r
    }

    fn charge(&mut self, sub_id: u64) -> bool {
        let step = self.ledger.charge(sub_id, self.now);
        self.settle(step)
    }

    fn cancel(&mut self, caller: AccountId, sub_id: u64) -> Result<(), VowenaError> {
        let r = self.ledger.cancel(caller, sub_id, self.now);
        self.run_effects();
        r
    }

    fn refund(&mut self, sub_id: u64, amount: i128) -> Result<(), VowenaError> {
        let r = self.ledger.refund(sub_id, amount);
        self.run_effects();
        r
    }

    fn update_plan_amount(&mut self, plan_id: u64, new_amount: i128) -> Result<(), VowenaError> {
        let r = self.ledger.update_plan_amount(plan_id, new_amount);
        self.run_effects();
        r
    }

    fn request_migration(&mut self, merchant: AccountId, old: u64, new: u64) -> Result<(), VowenaError> {
        let r = self.ledger.request_migration(merchant, old, new);
        self.run_effects();
        r
    }

    fn accept_migration(&mut self, subscriber: AccountId, sub_id: u64) -> Result<u64, VowenaError> {
        let r = self.ledger.accept_migration(subscriber, sub_id, self.now, self.sequence);
        self.run_effects();
        r
    }

    fn reject_migration(&mut self, subscriber: AccountId, sub_id: u64) -> Result<(), VowenaError> {
        let r = self.ledger.reject_migration(subscriber, sub_id);
        self.run_effects();
        r
    }

    fn reactivate(&mut self, subscriber: AccountId, sub_id: u64) -> Result<bool, VowenaError> {
        let step = self.ledger.reactivate(subscriber, sub_id, self.now, self.sequence)?;
        self.run_effects();
        Ok(self.settle(step))
    }

    fn get_plan(&self, plan_id: u64) -> Plan {
        self.ledger.get_plan(plan_id).unwrap()
    }

    fn get_subscription(&self, sub_id: u64) -> Subscription {
        self.ledger.get_subscription(sub_id).unwrap()
    }
}

fn setup() -> TestContext {
    let mut ctx = TestContext {
        ledger: VowenaContract::new(),
        now: 1_000_000,
        sequence: 100,
        admin: AccountId(1),
        merchant: AccountId(2),
        subscriber: AccountId(3),
        token_address: AccountId(4),
        balances: HashMap::new(),
        allowances: HashMap::new(),
        events: Vec::new(),
        next_account: 100,
    };
    let (subscriber, merchant, admin) = (ctx.subscriber, ctx.merchant, ctx.admin);
    ctx.mint(subscriber, MINT_AMOUNT);
    ctx.mint(merchant, MINT_AMOUNT);
    ctx.initialize(admin).unwrap();
    ctx
}

fn create_default_plan(ctx: &mut TestContext) -> u64 {
    let (merchant, token) = (ctx.merchant, ctx.token_address);
    ctx.create_plan(merchant, token, PLAN_AMOUNT, MONTH, 0, 0, GRACE_PERIOD, PRICE_CEILING).unwrap()
}

fn advance_time(ctx: &mut TestContext, seconds: u64) {
    ctx.now += seconds;
}

// ============================================================
// Initialize
// ============================================================

#[test]
fn test_initialize() {
    let mut ctx = setup();
    let plan_id = create_default_plan(&mut ctx);
    assert_eq!(plan_id, 1);
}

#[test]
fn test_double_initialize() {
    let mut ctx = setup();
    let admin = ctx.admin;
    let result = ctx.initialize(admin);
    assert!(result.is_err());
}

// ============================================================
// Create Plan
// ============================================================

#[test]
fn test_create_plan() {
    let mut ctx = setup();
    let plan_id = create_default_plan(&mut ctx);
    assert_eq!(plan_id, 1);

    let plan = ctx.get_plan(plan_id);
    assert_eq!(plan.amount, PLAN_AMOUNT);
    assert_eq!(plan.period, MONTH);
    assert_eq!(plan.merchant, ctx.merchant);
    assert!(plan.active);

    let merchant_plans = ctx.ledger.get_merchant_plans(ctx.merchant);
    assert_eq!(merchant_plans.len(), 1);
    assert_eq!(merchant_plans[0], plan_id);
}

#[test]
fn test_create_plan_invalid_amount() {
    let mut ctx = setup();
    let (merchant, token) = (ctx.merchant, ctx.token_address);
    let result = ctx.create_plan(merchant, token, 0i128, MONTH, 0u32, 0u32, GRACE_PERIOD, PRICE_CEILING);
    assert!(result.is_err());
}

#[test]
fn test_create_plan_invalid_period() {
    let mut ctx = setup();
    let (merchant, token) = (ctx.merchant, ctx.token_address);
    let result =
        ctx.create_plan(merchant, token, PLAN_AMOUNT, 0u64, 0u32, 0u32, GRACE_PERIOD, PRICE_CEILING);
    assert!(result.is_err());
}

#[test]
fn test_create_plan_ceiling_below_amount() {
    let mut ctx = setup();
    let (merchant, token) = (ctx.merchant, ctx.token_address);
    let result = ctx.create_plan(
        merchant,
        token,
        PLAN_AMOUNT,
        MONTH,
        0u32,
        0u32,
        GRACE_PERIOD,
        PLAN_AMOUNT - 1, // ceiling below amount
    );
    assert!(result.is_err());
}

// ============================================================
// Subscribe
// ============================================================

#[test]
fn test_subscribe() {
    let mut ctx = setup();
    let plan_id = create_default_plan(&mut ctx);
    let subscriber = ctx.subscriber;
    let sub_id = ctx.subscribe(subscriber, plan_id).unwrap();
    assert_eq!(sub_id, 1);

    let sub = ctx.get_subscription(sub_id);
    assert_eq!(sub.plan_id, plan_id);
    assert_eq!(sub.subscriber, ctx.subscriber);
    assert_eq!(sub.status, SubscriptionStatus::Active);
    assert_eq!(sub.periods_billed, 0);

    let sub_subs = ctx.ledger.get_subscriber_subscriptions(ctx.subscriber);
    assert_eq!(sub_subs.len(), 1);

    let plan_subs = ctx.ledger.get_plan_subscribers(plan_id);
    assert_eq!(plan_subs.len(), 1);
}

#[test]
fn test_subscribe_inactive_plan() {
    let mut ctx = setup();
    // Plan ID 99 doesn't exist
    let subscriber = ctx.subscriber;
    let result = ctx.subscribe(subscriber, 99u64);
    assert!(result.is_err());
}

// ============================================================
// Charge
// ============================================================

#[test]
fn test_charge_happy_path() {
    let mut ctx = setup();
    let plan_id = create_default_plan(&mut ctx);
    let subscriber = ctx.subscriber;
    let sub_id = ctx.subscribe(subscriber, plan_id).unwrap();

    let balance_before = ctx.balance(ctx.subscriber);

    // Advance past billing time
    advance_time(&mut ctx, MONTH + 1);

    let result = ctx.charge(sub_id);
    assert!(result);

    let balance_after = ctx.balance(ctx.subscriber);
    assert_eq!(balance_before - balance_after, PLAN_AMOUNT);

    let sub = ctx.get_subscription(sub_id);
    assert_eq!(sub.periods_billed, 1);
    assert_eq!(sub.status, SubscriptionStatus::Active);
}

#[test]
fn test_charge_not_due() {
    let mut ctx = setup();
    let plan_id = create_default_plan(&mut ctx);
    let subscriber = ctx.subscriber;
    let sub_id = ctx.subscribe(subscriber, plan_id).unwrap();

    // Don't advance time - billing not due
    let result = ctx.charge(sub_id);
    assert!(!result);

    let sub = ctx.get_subscription(sub_id);
    assert_eq!(sub.periods_billed, 0);
}

#[test]
fn test_charge_trial_period() {
    let mut ctx = setup();
    let (merchant, token, subscriber) = (ctx.merchant, ctx.token_address, ctx.subscriber);
    // Create plan with 2 trial periods
    let plan_id = ctx
        .create_plan(
            merchant,
            token,
            PLAN_AMOUNT,
            MONTH,
            2u32, // 2 trial periods
            0u32,
            GRACE_PERIOD,
            PRICE_CEILING,
        )
        .unwrap();

    let sub_id = ctx.subscribe(subscriber, plan_id).unwrap();
    let balance_before = ctx.balance(subscriber);

    // First trial charge
    advance_time(&mut ctx, MONTH + 1);
    let result = ctx.charge(sub_id);
    assert!(result);

    let sub = ctx.get_subscription(sub_id);
    assert_eq!(sub.periods_billed, 1);

    // No tokens deducted during trial
    let balance_after = ctx.balance(subscriber);
    assert_eq!(balance_before, balance_after);

    // Second trial charge
    advance_time(&mut ctx, MONTH);
    let result = ctx.charge(sub_id);
    assert!(result);

    let sub = ctx.get_subscription(sub_id);
    assert_eq!(sub.periods_billed, 2);
    assert_eq!(ctx.balance(subscriber), balance_before);

    // Third charge - real billing starts
    advance_time(&mut ctx, MONTH);
    let result = ctx.charge(sub_id);
    assert!(result);

    let sub = ctx.get_subscription(sub_id);
    assert_eq!(sub.periods_billed, 3);
    assert_eq!(ctx.balance(subscriber), balance_before - PLAN_AMOUNT);
}

#[test]
fn test_charge_insufficient_balance() {
    let mut ctx = setup();
    let plan_id = create_default_plan(&mut ctx);

    // Create a subscriber with no balance
    let broke_subscriber = ctx.generate();
    let sub_id = ctx.subscribe(broke_subscriber, plan_id).unwrap();

    advance_time(&mut ctx, MONTH + 1);
    let result = ctx.charge(sub_id);
    assert!(!result);

    let sub = ctx.get_subscription(sub_id);
    assert_eq!(sub.status, SubscriptionStatus::Active);
    assert!(sub.failed_at > 0); // failure recorded
}

#[test]
fn test_charge_grace_retry_success() {
    let mut ctx = setup();
    let plan_id = create_default_plan(&mut ctx);

    // Create a subscriber with no balance initially
    let retry_subscriber = ctx.generate();
    let sub_id = ctx.subscribe(retry_subscriber, plan_id).unwrap();

    advance_time(&mut ctx, MONTH + 1);

    // First charge fails - no balance
    let result = ctx.charge(sub_id);
    assert!(!result);

    // Fund the subscriber during grace period
    ctx.mint(retry_subscriber, MINT_AMOUNT);

    // Retry during grace period - should succeed
    advance_time(&mut ctx, 100); // small advance, still in grace
    let result = ctx.charge(sub_id);
    assert!(result);

    let sub = ctx.get_subscription(sub_id);
    assert_eq!(sub.status, SubscriptionStatus::Active);
    assert_eq!(sub.failed_at, 0); // cleared on success
    assert_eq!(sub.periods_billed, 1);
}

#[test]
fn test_charge_grace_expire_pause() {
    let mut ctx = setup();
    let plan_id = create_default_plan(&mut ctx);

    let broke_subscriber = ctx.generate();
    let sub_id = ctx.subscribe(broke_subscriber, plan_id).unwrap();

    advance_time(&mut ctx, MONTH + 1);

    // Charge fails
    ctx.charge(sub_id);

    // Advance past grace period
    advance_time(&mut ctx, GRACE_PERIOD + 1);

    // Another charge attempt transitions to Paused
    let result = ctx.charge(sub_id);
    assert!(!result);

    let sub = ctx.get_subscription(sub_id);
    assert_eq!(sub.status, SubscriptionStatus::Paused);
}

#[test]
fn test_charge_pause_to_cancel() {
    let mut ctx = setup();
    let plan_id = create_default_plan(&mut ctx);

    let broke_subscriber = ctx.generate();
    let sub_id = ctx.subscribe(broke_subscriber, plan_id).unwrap();

    advance_time(&mut ctx, MONTH + 1);

    // Fail -> grace -> pause
    ctx.charge(sub_id);
    advance_time(&mut ctx, GRACE_PERIOD + 1);
    ctx.charge(sub_id); // transitions to Paused

    let sub = ctx.get_subscription(sub_id);
    assert_eq!(sub.status, SubscriptionStatus::Paused);

    // One more period while paused -> Cancelled
    advance_time(&mut ctx, MONTH + 1);
    let result = ctx.charge(sub_id);
    assert!(!result);

    let sub = ctx.get_subscription(sub_id);
    assert_eq!(sub.status, SubscriptionStatus::Cancelled);
}

#[test]
fn test_charge_max_periods_expired() {
    let mut ctx = setup();
    let (merchant, token, subscriber) = (ctx.merchant, ctx.token_address, ctx.subscriber);
    // Plan with max 2 periods
    let plan_id = ctx
        .create_plan(
            merchant,
            token,
            PLAN_AMOUNT,
            MONTH,
            0u32,
            2u32, // max 2 periods
            GRACE_PERIOD,
            PRICE_CEILING,
        )
        .unwrap();

    let sub_id = ctx.subscribe(subscriber, plan_id).unwrap();

    // Charge period 1
    advance_time(&mut ctx, MONTH + 1);
    assert!(ctx.charge(sub_id));

    // Charge period 2
    advance_time(&mut ctx, MONTH);
    assert!(ctx.charge(sub_id));

    // Period 3 -> expired
    advance_time(&mut ctx, MONTH);
    let result = ctx.charge(sub_id);
    assert!(!result);

    let sub = ctx.get_subscription(sub_id);
    assert_eq!(sub.status, SubscriptionStatus::Expired);
}

#[test]
fn test_charge_permissionless() {
    let mut ctx = setup();
    let plan_id = create_default_plan(&mut ctx);
    let subscriber = ctx.subscriber;
    let sub_id = ctx.subscribe(subscriber, plan_id).unwrap();

    advance_time(&mut ctx, MONTH + 1);

    // Anyone can call charge: it takes no caller at all.
    let result = ctx.charge(sub_id);
    assert!(result);
}

// ============================================================
// Cancel
// ============================================================

#[test]
fn test_cancel_by_subscriber() {
    let mut ctx = setup();
    let plan_id = create_default_plan(&mut ctx);
    let subscriber = ctx.subscriber;
    let sub_id = ctx.subscribe(subscriber, plan_id).unwrap();

    ctx.cancel(subscriber, sub_id).unwrap();

    let sub = ctx.get_subscription(sub_id);
    assert_eq!(sub.status, SubscriptionStatus::Cancelled);
    assert!(sub.cancelled_at > 0);

    // Removed from plan subs
    let plan_subs = ctx.ledger.get_plan_subscribers(plan_id);
    assert_eq!(plan_subs.len(), 0);
}

#[test]
fn test_cancel_by_merchant() {
    let mut ctx = setup();
    let plan_id = create_default_plan(&mut ctx);
    let (subscriber, merchant) = (ctx.subscriber, ctx.merchant);
    let sub_id = ctx.subscribe(subscriber, plan_id).unwrap();

    ctx.cancel(merchant, sub_id).unwrap();

    let sub = ctx.get_subscription(sub_id);
    assert_eq!(sub.status, SubscriptionStatus::Cancelled);
}

#[test]
fn test_cancel_unauthorized() {
    let mut ctx = setup();
    let plan_id = create_default_plan(&mut ctx);
    let subscriber = ctx.subscriber;
    let sub_id = ctx.subscribe(subscriber, plan_id).unwrap();

    let random = ctx.generate();
    let result = ctx.cancel(random, sub_id);
    assert!(result.is_err());
}

// ============================================================
// Refund
// ============================================================

#[test]
fn test_refund() {
    let mut ctx = setup();
    let plan_id = create_default_plan(&mut ctx);
    let subscriber = ctx.subscriber;
    let sub_id = ctx.subscribe(subscriber, plan_id).unwrap();

    // Charge first
    advance_time(&mut ctx, MONTH + 1);
    ctx.charge(sub_id);

    let balance_before = ctx.balance(subscriber);

    // Refund
    let refund_amount: i128 = PLAN_AMOUNT / 2;
    ctx.refund(sub_id, refund_amount).unwrap();

    let balance_after = ctx.balance(subscriber);
    assert_eq!(balance_after - balance_before, refund_amount);
}

// ============================================================
// Update Plan Amount
// ============================================================

#[test]
fn test_update_amount_within_ceiling() {
    let mut ctx = setup();
    let plan_id = create_default_plan(&mut ctx);

    let new_amount: i128 = PLAN_AMOUNT + 1_000_000;
    assert!(new_amount <= PRICE_CEILING);

    ctx.update_plan_amount(plan_id, new_amount).unwrap();

    let plan = ctx.get_plan(plan_id);
    assert_eq!(plan.amount, new_amount);
}

#[test]
fn test_update_amount_exceeds_ceiling() {
    let mut ctx = setup();
    let plan_id = create_default_plan(&mut ctx);

    let result = ctx.update_plan_amount(plan_id, PRICE_CEILING + 1);
    assert!(result.is_err());
}

// ============================================================
// Migration
// ============================================================

fn create_doubled_plan(ctx: &mut TestContext) -> u64 {
    let (merchant, token) = (ctx.merchant, ctx.token_address);
    ctx.create_plan(merchant, token, PLAN_AMOUNT * 2, MONTH, 0u32, 0u32, GRACE_PERIOD, PRICE_CEILING * 2)
        .unwrap()
}

#[test]
fn test_migration_request() {
    let mut ctx = setup();
    let old_plan_id = create_default_plan(&mut ctx);
    let (subscriber, merchant) = (ctx.subscriber, ctx.merchant);
    let sub_id = ctx.subscribe(subscriber, old_plan_id).unwrap();

    // Create new plan
    let new_plan_id = create_doubled_plan(&mut ctx);

    ctx.request_migration(merchant, old_plan_id, new_plan_id).unwrap();

    let sub = ctx.get_subscription(sub_id);
    assert_eq!(sub.migration_target, new_plan_id);
}

#[test]
fn test_migration_accept() {
    let mut ctx = setup();
    let old_plan_id = create_default_plan(&mut ctx);
    let (subscriber, merchant) = (ctx.subscriber, ctx.merchant);
    let sub_id = ctx.subscribe(subscriber, old_plan_id).unwrap();

    let new_plan_id = create_doubled_plan(&mut ctx);

    ctx.request_migration(merchant, old_plan_id, new_plan_id).unwrap();

    let new_sub_id = ctx.accept_migration(subscriber, sub_id).unwrap();

    // Old sub is cancelled
    let old_sub = ctx.get_subscription(sub_id);
    assert_eq!(old_sub.status, SubscriptionStatus::Cancelled);

    // New sub is active on new plan
    let new_sub = ctx.get_subscription(new_sub_id);
    assert_eq!(new_sub.plan_id, new_plan_id);
    assert_eq!(new_sub.status, SubscriptionStatus::Active);
    assert_eq!(new_sub.subscriber, ctx.subscriber);
}

#[test]
fn test_migration_reject() {
    let mut ctx = setup();
    let old_plan_id = create_default_plan(&mut ctx);
    let (subscriber, merchant) = (ctx.subscriber, ctx.merchant);
    let sub_id = ctx.subscribe(subscriber, old_plan_id).unwrap();

    let new_plan_id = create_doubled_plan(&mut ctx);

    ctx.request_migration(merchant, old_plan_id, new_plan_id).unwrap();
    ctx.reject_migration(subscriber, sub_id).unwrap();

    let sub = ctx.get_subscription(sub_id);
    assert_eq!(sub.migration_target, 0);
    assert_eq!(sub.status, SubscriptionStatus::Active);
}

#[test]
fn test_rejected_migration_restores_subscription() {
    let mut ctx = setup();
    let old_plan_id = create_default_plan(&mut ctx);
    let (subscriber, merchant) = (ctx.subscriber, ctx.merchant);
    let sub_id = ctx.subscribe(subscriber, old_plan_id).unwrap();
    let before = ctx.get_subscription(sub_id);
    let new_plan_id = create_doubled_plan(&mut ctx);
    ctx.request_migration(merchant, old_plan_id, new_plan_id).unwrap();
    assert_eq!(ctx.get_subscription(sub_id).migration_target, new_plan_id);
    ctx.reject_migration(subscriber, sub_id).unwrap();
    assert_eq!(ctx.get_subscription(sub_id), before);
    assert_eq!(ctx.ledger.get_plan_subscribers(old_plan_id), vec![sub_id]);
    assert_eq!(ctx.reject_migration(subscriber, sub_id), Err(VowenaError::NoMigrationPending));
}

#[test]
fn test_lists_keep_creation_order() {
    let mut ctx = setup();
    let (merchant, subscriber) = (ctx.merchant, ctx.subscriber);
    let first = create_default_plan(&mut ctx);
    let second = create_doubled_plan(&mut ctx);
    let third = create_default_plan(&mut ctx);
    assert_eq!(ctx.ledger.get_merchant_plans(merchant), vec![first, second, third]);
    let a = ctx.subscribe(subscriber, third).unwrap();
    let b = ctx.subscribe(subscriber, first).unwrap();
    ctx.cancel(subscriber, a).unwrap();
    let c = ctx.subscribe(subscriber, second).unwrap();
    assert!(a < b && b < c);
    assert_eq!(ctx.ledger.get_subscriber_subscriptions(subscriber), vec![a, b, c]);
}

// ============================================================
// Reactivate
// ============================================================

#[test]
fn test_reactivate() {
    let mut ctx = setup();
    let plan_id = create_default_plan(&mut ctx);

    let broke_subscriber = ctx.generate();
    let sub_id = ctx.subscribe(broke_subscriber, plan_id).unwrap();

    // Fail -> grace -> pause
    advance_time(&mut ctx, MONTH + 1);
    ctx.charge(sub_id);
    advance_time(&mut ctx, GRACE_PERIOD + 1);
    ctx.charge(sub_id);

    let sub = ctx.get_subscription(sub_id);
    assert_eq!(sub.status, SubscriptionStatus::Paused);

    // Fund and reactivate
    ctx.mint(broke_subscriber, MINT_AMOUNT);
    let charged = ctx.reactivate(broke_subscriber, sub_id).unwrap();
    assert!(charged);

    let sub = ctx.get_subscription(sub_id);
    assert_eq!(sub.status, SubscriptionStatus::Active);
    assert_eq!(sub.periods_billed, 1);
}

// ============================================================
// Full Lifecycle
// ============================================================

#[test]
fn test_full_lifecycle() {
    let mut ctx = setup();
    let subscriber = ctx.subscriber;

    // 1. Create plan
    let plan_id = create_default_plan(&mut ctx);

    // 2. Subscribe
    let sub_id = ctx.subscribe(subscriber, plan_id).unwrap();
    assert_eq!(ctx.get_subscription(sub_id).status, SubscriptionStatus::Active);

    // 3. Charge 3 times
    for _ in 0..3 {
        advance_time(&mut ctx, MONTH + 1);
        assert!(ctx.charge(sub_id));
    }
    assert_eq!(ctx.get_subscription(sub_id).periods_billed, 3);

    // 5. Cancel
    ctx.cancel(subscriber, sub_id).unwrap();
    assert_eq!(ctx.get_subscription(sub_id).status, SubscriptionStatus::Cancelled);

    // 6. Verify total charges
    let expected_deduction = PLAN_AMOUNT * 3;
    let final_balance = ctx.balance(subscriber);
    assert_eq!(MINT_AMOUNT - final_balance, expected_deduction);
}

#[test]
fn test_full_lifecycle_with_failure_and_reactivation() {
    let mut ctx = setup();
    let (merchant, token) = (ctx.merchant, ctx.token_address);

    // Create plan with short grace period for test
    let plan_id = ctx
        .create_plan(
            merchant,
            token,
            PLAN_AMOUNT,
            MONTH,
            1u32, // 1 trial period
            0u32,
            GRACE_PERIOD,
            PRICE_CEILING,
        )
        .unwrap();

    // Subscribe
    let poor_sub = ctx.generate();
    ctx.mint(poor_sub, PLAN_AMOUNT * 2); // Only enough for 2 real charges
    let sub_id = ctx.subscribe(poor_sub, plan_id).unwrap();

    // Trial charge (free)
    advance_time(&mut ctx, MONTH + 1);
    assert!(ctx.charge(sub_id));
    assert_eq!(ctx.get_subscription(sub_id).periods_billed, 1);

    // Real charge 1
    advance_time(&mut ctx, MONTH);
    assert!(ctx.charge(sub_id));
    assert_eq!(ctx.get_subscription(sub_id).periods_billed, 2);

    // Real charge 2
    advance_time(&mut ctx, MONTH);
    assert!(ctx.charge(sub_id));
    assert_eq!(ctx.get_subscription(sub_id).periods_billed, 3);

    // Charge fails - insufficient balance
    advance_time(&mut ctx, MONTH);
    assert!(!ctx.charge(sub_id));
    assert!(ctx.get_subscription(sub_id).failed_at > 0);

    // Grace period expires -> Paused
    advance_time(&mut ctx, GRACE_PERIOD + 1);
    ctx.charge(sub_id);
    assert_eq!(ctx.get_subscription(sub_id).status, SubscriptionStatus::Paused);

    // Fund and reactivate
    ctx.mint(poor_sub, MINT_AMOUNT);
    let charged = ctx.reactivate(poor_sub, sub_id).unwrap();
    assert!(charged);
    assert_eq!(ctx.get_subscription(sub_id).status, SubscriptionStatus::Active);

    // Cancel
    ctx.cancel(poor_sub, sub_id).unwrap();
    assert_eq!(ctx.get_subscription(sub_id).status, SubscriptionStatus::Cancelled);
}

// ============================================================
// Further cases
// ============================================================

#[test]
fn test_initialize_only_once_leaves_ledger_alone() {
    let mut ctx = setup();
    let plan_id = create_default_plan(&mut ctx);
    let other = ctx.generate();
    assert_eq!(ctx.initialize(other), Err(VowenaError::AlreadyInitialized));
    assert_eq!(ctx.ledger.admin, Some(ctx.admin));
    assert_eq!(ctx.ledger.next_plan_id, plan_id + 1);
    assert_eq!(ctx.ledger.next_sub_id, 1);
}

#[test]
fn test_create_plan_requires_initialize() {
    let mut ledger = VowenaContract::new();
    let r = ledger.create_plan(AccountId(2), AccountId(4), 10, 60, 0, 0, 0, 10, String::from("Basic"), 0, 5);
    assert_eq!(r, Err(VowenaError::NotInitialized));
    assert_eq!(ledger.next_plan_id, 0);
    assert!(ledger.plans.is_empty());
    assert!(ledger.effects.is_empty());
    assert!(ledger.get_merchant_plans(AccountId(2)).is_empty());
    assert_eq!(ledger.initialize(AccountId(1)), Ok(()));
    let r = ledger.create_plan(AccountId(2), AccountId(4), 10, 60, 0, 0, 0, 10, String::from("Basic"), 0, 5);
    assert_eq!(r, Ok(1));
    assert_eq!(ledger.get_merchant_plans(AccountId(2)), vec![1]);
}

#[test]
fn test_plan_keeps_name_and_project() {
    let mut ctx = setup();
    let merchant = ctx.merchant;
    let project_id = ctx.ledger.create_project(merchant, String::from("Studio"), String::from("Lessons"), ctx.now);
    let r = ctx.ledger.create_plan(
        merchant,
        ctx.token_address,
        PLAN_AMOUNT,
        MONTH,
        0,
        0,
        GRACE_PERIOD,
        PRICE_CEILING,
        String::from("Weekly lessons"),
        project_id,
        ctx.now,
    );
    let plan_id = r.unwrap();
    let plan = ctx.ledger.get_plan(plan_id).unwrap();
    assert_eq!(plan.name, "Weekly lessons");
    assert_eq!(plan.project_id, project_id);
    assert_eq!(plan.created_at, ctx.now);
    assert!(plan.active);
}

#[test]
fn test_short_period_allowance_lasts_at_least_a_day() {
    let mut ctx = setup();
    let (merchant, token, subscriber) = (ctx.merchant, ctx.token_address, ctx.subscriber);
    // 120 periods of a minute are 1_440 ledgers, below the floor.
    let plan_id = ctx.create_plan(merchant, token, PLAN_AMOUNT, 60, 0, 0, GRACE_PERIOD, PRICE_CEILING).unwrap();
    ctx.ledger.subscribe(subscriber, plan_id, ctx.now, ctx.sequence).unwrap();
    assert_eq!(
        ctx.ledger.effects[0],
        Effect::Approve { token, owner: subscriber, amount: PRICE_CEILING * 120, expiration_ledger: 100 + 17_280 }
    );
}

#[test]
fn test_long_period_allowance_is_capped_not_wrapped() {
    let mut ctx = setup();
    let (merchant, token, subscriber) = (ctx.merchant, ctx.token_address, ctx.subscriber);
    // 120 periods of 2^40 seconds are far more ledgers than 32 bits hold.
    let period: u64 = 1 << 40;
    let plan_id = ctx.create_plan(merchant, token, PLAN_AMOUNT, period, 0, 0, GRACE_PERIOD, PRICE_CEILING).unwrap();
    ctx.ledger.subscribe(subscriber, plan_id, ctx.now, ctx.sequence).unwrap();
    assert_eq!(
        ctx.ledger.effects[0],
        Effect::Approve { token, owner: subscriber, amount: PRICE_CEILING * 120, expiration_ledger: 100 + 3_000_000 }
    );
}

#[test]
fn test_error_variants_and_codes() {
    let mut ctx = setup();
    let (merchant, token, subscriber) = (ctx.merchant, ctx.token_address, ctx.subscriber);
    let plan_id = create_default_plan(&mut ctx);
    assert_eq!(
        ctx.create_plan(merchant, token, -5, MONTH, 0, 0, GRACE_PERIOD, PRICE_CEILING),
        Err(VowenaError::InvalidAmount)
    );
    assert_eq!(
        ctx.create_plan(merchant, token, PLAN_AMOUNT, 0, 0, 0, GRACE_PERIOD, PRICE_CEILING),
        Err(VowenaError::InvalidPeriod)
    );
    assert_eq!(
        ctx.create_plan(merchant, token, PLAN_AMOUNT, MONTH, 0, 0, GRACE_PERIOD, 1),
        Err(VowenaError::CeilingBelowAmount)
    );
    assert_eq!(ctx.subscribe(subscriber, 99), Err(VowenaError::PlanNotFound));
    assert_eq!(ctx.ledger.get_plan(99).unwrap_err(), VowenaError::PlanNotFound);
    assert_eq!(ctx.update_plan_amount(99, 1), Err(VowenaError::PlanNotFound));
    assert_eq!(ctx.update_plan_amount(plan_id, 0), Err(VowenaError::InvalidAmount));
    assert_eq!(
        ctx.update_plan_amount(plan_id, PRICE_CEILING + 1),
        Err(VowenaError::AmountExceedsCeiling)
    );
    assert_eq!(ctx.ledger.get_subscription(42), Err(VowenaError::SubNotFound));
    assert_eq!(ctx.cancel(subscriber, 42), Err(VowenaError::SubNotFound));
    assert_eq!(ctx.refund(42, 1), Err(VowenaError::SubNotFound));
    assert_eq!(ctx.reactivate(subscriber, 42), Err(VowenaError::SubNotFound));

    let sub_id = ctx.subscribe(subscriber, plan_id).unwrap();
    let stranger = ctx.generate();
    assert_eq!(ctx.cancel(stranger, sub_id), Err(VowenaError::Unauthorized));
    assert_eq!(ctx.reactivate(stranger, sub_id), Err(VowenaError::Unauthorized));
    assert_eq!(ctx.reject_migration(stranger, sub_id), Err(VowenaError::Unauthorized));
    assert_eq!(ctx.accept_migration(stranger, sub_id), Err(VowenaError::Unauthorized));
    assert_eq!(ctx.reactivate(subscriber, sub_id), Err(VowenaError::NotPaused));
    assert_eq!(ctx.reject_migration(subscriber, sub_id), Err(VowenaError::NoMigrationPending));
    assert_eq!(ctx.accept_migration(subscriber, sub_id), Err(VowenaError::NoMigrationPending));

    let other_merchant = ctx.generate();
    let foreign_plan = ctx
        .create_plan(other_merchant, token, PLAN_AMOUNT, MONTH, 0, 0, GRACE_PERIOD, PRICE_CEILING)
        .unwrap();
    assert_eq!(
        ctx.request_migration(merchant, plan_id, foreign_plan),
        Err(VowenaError::MerchantMismatch)
    );
    let second = create_default_plan(&mut ctx);
    ctx.ledger.plans.get_mut(&second).unwrap().active = false;
    assert_eq!(ctx.request_migration(merchant, plan_id, second), Err(VowenaError::PlanInactive));
    assert_eq!(ctx.subscribe(subscriber, second), Err(VowenaError::PlanInactive));

    assert_eq!(VowenaError::AlreadyInitialized.code(), 1);
    assert_eq!(VowenaError::NotInitialized.code(), 2);
    assert_eq!(VowenaError::PlanInactive.code(), 7);
    assert_eq!(VowenaError::NotPaused.code(), 13);
}

#[test]
fn test_refused_requests_change_nothing() {
    let mut ctx = setup();
    let plan_id = create_default_plan(&mut ctx);
    let subscriber = ctx.subscriber;
    let sub_id = ctx.subscribe(subscriber, plan_id).unwrap();
    let before = ctx.get_subscription(sub_id);
    let stranger = ctx.generate();
    assert!(ctx.cancel(stranger, sub_id).is_err());
    assert!(ctx.ledger.effects.is_empty());
    assert_eq!(ctx.get_subscription(sub_id), before);
    assert_eq!(ctx.ledger.get_plan_subscribers(plan_id), vec![sub_id]);
}

#[test]
fn test_subscribe_records_approval_then_event() {
    let mut ctx = setup();
    let plan_id = create_default_plan(&mut ctx);
    let subscriber = ctx.subscriber;
    let sub_id = ctx.ledger.subscribe(subscriber, plan_id, ctx.now, ctx.sequence).unwrap();
    let effects = ctx.ledger.take_effects();
    // 120 periods at the ceiling; 120 months of ledgers exceed the cap, so the cap applies.
    assert_eq!(
        effects,
        vec![
            Effect::Approve {
                token: ctx.token_address,
                owner: subscriber,
                amount: PRICE_CEILING * 120,
                expiration_ledger: 100 + 3_000_000,
            },
            Effect::Emit(Event::SubscriptionCreated { sub_id, plan_id, subscriber }),
        ]
    );
    let sub = ctx.get_subscription(sub_id);
    assert_eq!(sub.next_billing_time, 1_000_000 + MONTH);
    assert_eq!(sub.created_at, 1_000_000);
}

#[test]
fn test_approval_for_limited_plan() {
    let mut ctx = setup();
    let (merchant, token, subscriber) = (ctx.merchant, ctx.token_address, ctx.subscriber);
    let plan_id = ctx.create_plan(merchant, token, PLAN_AMOUNT, MONTH, 0, 2, GRACE_PERIOD, PRICE_CEILING).unwrap();
    ctx.ledger.subscribe(subscriber, plan_id, ctx.now, ctx.sequence).unwrap();
    let effects = ctx.ledger.take_effects();
    // 2 periods of 30 days is 5_184_000 seconds, a fifth of which is 1_036_800 ledgers.
    assert_eq!(
        effects[0],
        Effect::Approve { token, owner: subscriber, amount: PRICE_CEILING * 2, expiration_ledger: 1_036_900 }
    );
}

#[test]
fn test_charge_moves_plan_amount_to_merchant() {
    let mut ctx = setup();
    let plan_id = create_default_plan(&mut ctx);
    let (subscriber, merchant) = (ctx.subscriber, ctx.merchant);
    let sub_id = ctx.subscribe(subscriber, plan_id).unwrap();
    let merchant_before = ctx.balance(merchant);
    advance_time(&mut ctx, MONTH);
    let step = ctx.ledger.charge(sub_id, ctx.now);
    let check = match step {
        ChargeStep::NeedsFunds(check) => check,
        ChargeStep::Done(_) => panic!("a due charge needs the subscriber's funds"),
    };
    assert_eq!(check.owner, subscriber);
    assert_eq!(check.amount, PLAN_AMOUNT);
    assert!(ctx.ledger.effects.is_empty());
    let charged = complete_charge(&mut ctx.ledger, check, ctx.now, MINT_AMOUNT, PRICE_CEILING * 120);
    assert!(charged);
    assert_eq!(
        ctx.ledger.effects,
        vec![
            Effect::TransferFrom { token: ctx.token_address, from: subscriber, to: merchant, amount: PLAN_AMOUNT },
            Effect::Emit(Event::ChargeSuccess { sub_id, amount: PLAN_AMOUNT, subscriber }),
        ]
    );
    ctx.run_effects();
    assert_eq!(ctx.balance(merchant) - merchant_before, PLAN_AMOUNT);
    assert_eq!(ctx.get_subscription(sub_id).next_billing_time, 1_000_000 + 2 * MONTH);
}

#[test]
fn test_failure_keeps_first_failure_time() {
    let mut ctx = setup();
    let plan_id = create_default_plan(&mut ctx);
    let broke = ctx.generate();
    let sub_id = ctx.subscribe(broke, plan_id).unwrap();
    advance_time(&mut ctx, MONTH);
    let first_failure = ctx.now;
    assert!(!ctx.charge(sub_id));
    assert_eq!(ctx.events.last(), Some(&Event::ChargeFailed { sub_id, subscriber: broke }));
    advance_time(&mut ctx, 10);
    assert!(!ctx.charge(sub_id));
    assert_eq!(ctx.get_subscription(sub_id).failed_at, first_failure);
    // Exactly at the end of the grace period the subscription pauses.
    ctx.now = first_failure + GRACE_PERIOD;
    assert!(!ctx.charge(sub_id));
    assert_eq!(ctx.get_subscription(sub_id).status, SubscriptionStatus::Paused);
    assert_eq!(ctx.events.last(), Some(&Event::SubscriptionPaused { sub_id, subscriber: broke }));
    // A paused subscription leaves its plan's list, and records when it paused.
    assert!(ctx.ledger.get_plan_subscribers(plan_id).is_empty());
    assert_eq!(ctx.get_subscription(sub_id).paused_at, ctx.now);
}

#[test]
fn test_terminal_subscriptions_are_not_charged() {
    let mut ctx = setup();
    let plan_id = create_default_plan(&mut ctx);
    let subscriber = ctx.subscriber;
    let sub_id = ctx.subscribe(subscriber, plan_id).unwrap();
    ctx.cancel(subscriber, sub_id).unwrap();
    let before = ctx.get_subscription(sub_id);
    advance_time(&mut ctx, 5 * MONTH);
    assert_eq!(ctx.ledger.charge(sub_id, ctx.now), ChargeStep::Done(false));
    assert!(ctx.ledger.effects.is_empty());
    assert_eq!(ctx.get_subscription(sub_id), before);
    assert_eq!(ctx.ledger.charge(777, ctx.now), ChargeStep::Done(false));
}

#[test]
fn test_paused_subscription_waits_one_period_before_cancelling() {
    let mut ctx = setup();
    let plan_id = create_default_plan(&mut ctx);
    let broke = ctx.generate();
    let sub_id = ctx.subscribe(broke, plan_id).unwrap();
    advance_time(&mut ctx, MONTH);
    ctx.charge(sub_id);
    advance_time(&mut ctx, GRACE_PERIOD);
    ctx.charge(sub_id);
    let paused = ctx.get_subscription(sub_id);
    assert_eq!(paused.status, SubscriptionStatus::Paused);
    assert_eq!(paused.paused_at, ctx.now);
    // Right after the pause, and one second short of a whole period paused,
    // nothing happens.
    advance_time(&mut ctx, 1);
    assert!(!ctx.charge(sub_id));
    assert_eq!(ctx.get_subscription(sub_id).status, SubscriptionStatus::Paused);
    ctx.now = paused.paused_at + MONTH - 1;
    assert!(!ctx.charge(sub_id));
    assert_eq!(ctx.get_subscription(sub_id).status, SubscriptionStatus::Paused);
    ctx.now = paused.paused_at + MONTH;
    assert!(!ctx.charge(sub_id));
    let cancelled = ctx.get_subscription(sub_id);
    assert_eq!(cancelled.status, SubscriptionStatus::Cancelled);
    assert_eq!(cancelled.cancelled_at, ctx.now);
    assert!(ctx.ledger.get_plan_subscribers(plan_id).is_empty());
}

#[test]
fn test_expired_subscription_leaves_plan_list() {
    let mut ctx = setup();
    let (merchant, token, subscriber) = (ctx.merchant, ctx.token_address, ctx.subscriber);
    let plan_id = ctx.create_plan(merchant, token, PLAN_AMOUNT, MONTH, 0, 1, GRACE_PERIOD, PRICE_CEILING).unwrap();
    let sub_id = ctx.subscribe(subscriber, plan_id).unwrap();
    advance_time(&mut ctx, MONTH);
    assert!(ctx.charge(sub_id));
    advance_time(&mut ctx, MONTH);
    assert!(!ctx.charge(sub_id));
    assert_eq!(ctx.get_subscription(sub_id).status, SubscriptionStatus::Expired);
    assert!(ctx.ledger.get_plan_subscribers(plan_id).is_empty());
    assert_eq!(ctx.events.last(), Some(&Event::SubscriptionExpired { sub_id, subscriber }));
}

#[test]
fn test_reactivation_effects_in_order() {
    let mut ctx = setup();
    let (merchant, token) = (ctx.merchant, ctx.token_address);
    let plan_id = ctx.create_plan(merchant, token, PLAN_AMOUNT, MONTH, 0, 3, GRACE_PERIOD, PRICE_CEILING).unwrap();
    let broke = ctx.generate();
    let sub_id = ctx.subscribe(broke, plan_id).unwrap();
    advance_time(&mut ctx, MONTH);
    ctx.charge(sub_id);
    advance_time(&mut ctx, GRACE_PERIOD);
    ctx.charge(sub_id);
    assert_eq!(ctx.get_subscription(sub_id).status, SubscriptionStatus::Paused);
    ctx.mint(broke, MINT_AMOUNT);

    let step = ctx.ledger.reactivate(broke, sub_id, ctx.now, ctx.sequence).unwrap();
    // Three periods remain; 3 months of ledgers is 1_555_200.
    assert_eq!(
        ctx.ledger.effects,
        vec![Effect::Approve { token, owner: broke, amount: PRICE_CEILING * 3, expiration_ledger: 100 + 1_555_200 }]
    );
    ctx.run_effects();
    let check = match step {
        ChargeStep::NeedsFunds(check) => check,
        ChargeStep::Done(_) => panic!("a reactivated subscription is due at once"),
    };
    assert!(check.announce_reactivation);
    let charged = complete_charge(&mut ctx.ledger, check, ctx.now, MINT_AMOUNT, PRICE_CEILING * 3);
    assert!(charged);
    assert_eq!(
        ctx.ledger.effects,
        vec![
            Effect::TransferFrom { token, from: broke, to: merchant, amount: PLAN_AMOUNT },
            Effect::Emit(Event::ChargeSuccess { sub_id, amount: PLAN_AMOUNT, subscriber: broke }),
            Effect::Emit(Event::SubscriptionReactivated { sub_id, subscriber: broke }),
        ]
    );
    let sub = ctx.get_subscription(sub_id);
    assert_eq!(sub.next_billing_time, ctx.now + MONTH);
    assert_eq!(sub.failed_at, 0);
    assert_eq!(sub.paused_at, 0);
    // Reactivation lists the subscription under its plan again, once; a
    // cancellation drops it.
    assert_eq!(ctx.ledger.get_plan_subscribers(plan_id), vec![sub_id]);
    ctx.run_effects();
    ctx.cancel(broke, sub_id).unwrap();
    assert!(ctx.ledger.get_plan_subscribers(plan_id).is_empty());
}

#[test]
fn test_reactivation_within_trial_counts_free_period() {
    let mut ctx = setup();
    let (merchant, token) = (ctx.merchant, ctx.token_address);
    let plan_id = ctx.create_plan(merchant, token, PLAN_AMOUNT, MONTH, 1, 0, GRACE_PERIOD, PRICE_CEILING).unwrap();
    let sub_id = ctx.subscribe(ctx.subscriber, plan_id).unwrap();
    // A subscription paused before its trial ended, as a paused one is kept:
    // off its plan's list.
    ctx.ledger.subscriptions.get_mut(&sub_id).unwrap().status = SubscriptionStatus::Paused;
    ctx.ledger.subscriptions.get_mut(&sub_id).unwrap().paused_at = ctx.now;
    ctx.ledger.plan_subs.insert(plan_id, Vec::new());
    let subscriber = ctx.subscriber;
    let step = ctx.ledger.reactivate(subscriber, sub_id, ctx.now, ctx.sequence).unwrap();
    assert_eq!(step, ChargeStep::Done(true));
    assert_eq!(ctx.ledger.get_plan_subscribers(plan_id), vec![sub_id]);
    let effects = ctx.ledger.take_effects();
    assert_eq!(
        &effects[1..],
        &[
            Effect::Emit(Event::ChargeSuccess { sub_id, amount: 0, subscriber }),
            Effect::Emit(Event::SubscriptionReactivated { sub_id, subscriber }),
        ]
    );
    assert_eq!(ctx.get_subscription(sub_id).periods_billed, 1);
}

#[test]
fn test_refund_moves_from_merchant() {
    let mut ctx = setup();
    let plan_id = create_default_plan(&mut ctx);
    let (subscriber, merchant, token) = (ctx.subscriber, ctx.merchant, ctx.token_address);
    let sub_id = ctx.subscribe(subscriber, plan_id).unwrap();
    ctx.ledger.refund(sub_id, 5).unwrap();
    assert_eq!(
        ctx.ledger.take_effects(),
        vec![
            Effect::Transfer { token, from: merchant, to: subscriber, amount: 5 },
            Effect::Emit(Event::RefundIssued { sub_id, amount: 5, subscriber }),
        ]
    );
}

#[test]
fn test_migration_marks_only_active_subscriptions() {
    let mut ctx = setup();
    let old_plan_id = create_default_plan(&mut ctx);
    let (subscriber, merchant) = (ctx.subscriber, ctx.merchant);
    let active = ctx.subscribe(subscriber, old_plan_id).unwrap();
    let broke = ctx.generate();
    let paused = ctx.subscribe(broke, old_plan_id).unwrap();
    advance_time(&mut ctx, MONTH);
    assert!(ctx.charge(active));
    assert!(!ctx.charge(paused));
    advance_time(&mut ctx, GRACE_PERIOD);
    assert!(!ctx.charge(paused));
    assert_eq!(ctx.get_subscription(paused).status, SubscriptionStatus::Paused);
    let new_plan_id = create_doubled_plan(&mut ctx);
    ctx.request_migration(merchant, old_plan_id, new_plan_id).unwrap();
    assert_eq!(ctx.get_subscription(active).migration_target, new_plan_id);
    assert_eq!(ctx.get_subscription(paused).migration_target, 0);
    assert_eq!(
        ctx.events.last(),
        Some(&Event::MigrationRequested { old_plan_id, new_plan_id })
    );
}

#[test]
fn test_accepted_migration_moves_lists_and_allowance() {
    let mut ctx = setup();
    let old_plan_id = create_default_plan(&mut ctx);
    let (subscriber, merchant, token) = (ctx.subscriber, ctx.merchant, ctx.token_address);
    let sub_id = ctx.subscribe(subscriber, old_plan_id).unwrap();
    let new_plan_id = create_doubled_plan(&mut ctx);
    ctx.request_migration(merchant, old_plan_id, new_plan_id).unwrap();
    let new_sub_id = ctx.ledger.accept_migration(subscriber, sub_id, ctx.now, ctx.sequence).unwrap();
    assert_eq!(new_sub_id, 2);
    assert_eq!(
        ctx.ledger.take_effects(),
        vec![
            Effect::Approve { token, owner: subscriber, amount: PRICE_CEILING * 2 * 120, expiration_ledger: 3_000_100 },
            Effect::Emit(Event::MigrationAccepted { old_sub_id: sub_id, new_sub_id, subscriber }),
        ]
    );
    let old_sub = ctx.get_subscription(sub_id);
    assert_eq!(old_sub.migration_target, 0);
    assert_eq!(old_sub.cancelled_at, ctx.now);
    assert!(ctx.ledger.get_plan_subscribers(old_plan_id).is_empty());
    assert_eq!(ctx.ledger.get_plan_subscribers(new_plan_id), vec![new_sub_id]);
    assert_eq!(ctx.ledger.get_subscriber_subscriptions(subscriber), vec![sub_id, new_sub_id]);
    assert_eq!(ctx.get_subscription(new_sub_id).next_billing_time, ctx.now + MONTH);
}

#[test]
fn test_projects() {
    let mut ledger = VowenaContract::new();
    let merchant = AccountId(2);
    let id = ledger.create_project(merchant, "Streaming".to_string(), "Video plans".to_string(), 7);
    assert_eq!(id, 0);
    let second = ledger.create_project(merchant, "Music".to_string(), String::new(), 8);
    assert_eq!(second, 1);
    let project = ledger.get_project(id);
    assert_eq!(project.name, "Streaming");
    assert_eq!(project.description, "Video plans");
    assert_eq!(project.merchant, merchant);
    assert_eq!(project.created_at, 7);
    assert_eq!(ledger.get_merchant_projects(merchant), vec![0, 1]);
    assert!(ledger.get_merchant_projects(AccountId(9)).is_empty());
    assert_eq!(
        ledger.take_effects(),
        vec![
            Effect::Emit(Event::ProjectCreated { project_id: 0, merchant }),
            Effect::Emit(Event::ProjectCreated { project_id: 1, merchant }),
        ]
    );
}

#[test]
fn test_limits_reported_before_overflow() {
    let mut ctx = setup();
    let (merchant, token, subscriber) = (ctx.merchant, ctx.token_address, ctx.subscriber);
    let huge = ctx.create_plan(merchant, token, 1, MONTH, 0, 0, 0, i128::MAX / 2).unwrap();
    assert!(!ctx.ledger.subscribe_within_limits(huge, ctx.now, ctx.sequence));
    let plan_id = create_default_plan(&mut ctx);
    assert!(ctx.ledger.subscribe_within_limits(plan_id, ctx.now, ctx.sequence));
    assert!(!ctx.ledger.subscribe_within_limits(plan_id, u64::MAX - 1, ctx.sequence));
    let sub_id = ctx.subscribe(subscriber, plan_id).unwrap();
    assert!(ctx.ledger.charge_within_limits(sub_id, ctx.now));
    // A failure dated so late that the end of its grace period overflows.
    ctx.ledger.subscriptions.get_mut(&sub_id).unwrap().next_billing_time = 0;
    ctx.ledger.subscriptions.get_mut(&sub_id).unwrap().failed_at = u64::MAX;
    assert!(!ctx.ledger.charge_within_limits(sub_id, ctx.now));
    assert!(ctx.ledger.subscription_plan_stored(sub_id));
    assert!(ctx.ledger.create_plan_within_limits(0, 0, 0));
    assert!(ctx.ledger.create_project_within_limits());
    assert!(ctx.ledger.request_migration_within_limits(merchant, plan_id, plan_id));
    assert!(!ctx.ledger.request_migration_within_limits(merchant, plan_id, 99));
    assert!(ctx.ledger.reactivate_within_limits(subscriber, sub_id, ctx.now, ctx.sequence));
    assert!(!ctx.ledger.accept_migration_within_limits(subscriber, 99, ctx.now, ctx.sequence));
}

#[test]
fn test_no_second_charge_in_same_period() {
    let mut ctx = setup();
    let plan_id = create_default_plan(&mut ctx);
    let subscriber = ctx.subscriber;
    let sub_id = ctx.subscribe(subscriber, plan_id).unwrap();
    advance_time(&mut ctx, MONTH + 5);
    assert!(ctx.charge(sub_id));
    let after_first = ctx.get_subscription(sub_id);
    let balance = ctx.balance(subscriber);
    assert!(!ctx.charge(sub_id));
    assert_eq!(ctx.get_subscription(sub_id), after_first);
    assert_eq!(ctx.balance(subscriber), balance);
}

#[test]
fn test_missed_periods_are_caught_up() {
    let mut ctx = setup();
    let plan_id = create_default_plan(&mut ctx);
    let subscriber = ctx.subscriber;
    let sub_id = ctx.subscribe(subscriber, plan_id).unwrap();
    advance_time(&mut ctx, 2 * MONTH);
    assert!(ctx.charge(sub_id));
    assert!(ctx.charge(sub_id));
    assert!(!ctx.charge(sub_id));
    assert_eq!(ctx.get_subscription(sub_id).periods_billed, 2);
    assert_eq!(MINT_AMOUNT - ctx.balance(subscriber), 2 * PLAN_AMOUNT);
}
