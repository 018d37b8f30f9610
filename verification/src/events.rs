use vstd::prelude::*;

use crate::storage::VowenaContract;
use crate::types::AccountId;

verus! {

/// An event that the contract publishes for indexers and user interfaces.
#[derive(Clone, Copy, Debug, PartialEq, Eq, Structural)]
pub enum Event {
    PlanCreated { plan_id: u64, merchant: AccountId },
    ProjectCreated { project_id: u64, merchant: AccountId },
    PlanAmountUpdated { plan_id: u64, new_amount: i128 },
    SubscriptionCreated { sub_id: u64, plan_id: u64, subscriber: AccountId },
    ChargeSuccess { sub_id: u64, amount: i128, subscriber: AccountId },
    ChargeFailed { sub_id: u64, subscriber: AccountId },
    SubscriptionCancelled { sub_id: u64, subscriber: AccountId },
    SubscriptionPaused { sub_id: u64, subscriber: AccountId },
    SubscriptionExpired { sub_id: u64, subscriber: AccountId },
    SubscriptionReactivated { sub_id: u64, subscriber: AccountId },
    RefundIssued { sub_id: u64, amount: i128, subscriber: AccountId },
    MigrationRequested { old_plan_id: u64, new_plan_id: u64 },
    MigrationAccepted { old_sub_id: u64, new_sub_id: u64, subscriber: AccountId },
    MigrationRejected { sub_id: u64, subscriber: AccountId },
}

/// Something the host must do on the contract's behalf once an entry point
/// has decided: a call into a token contract, or the publication of an event.
/// Effects are carried out in the order in which they were recorded.
#[derive(Clone, Copy, Debug, PartialEq, Eq, Structural)]
pub enum Effect {
    /// `owner` lets this contract spend up to `amount` of `token`
    /// until ledger `expiration_ledger`.
    Approve { token: AccountId, owner: AccountId, amount: i128, expiration_ledger: u32 },
    /// This contract moves `amount` of `token` from `from` to `to`, drawing on
    /// the allowance that `from` granted it.
    TransferFrom { token: AccountId, from: AccountId, to: AccountId, amount: i128 },
    /// `from` moves `amount` of `token` to `to` directly.
    Transfer { token: AccountId, from: AccountId, to: AccountId, amount: i128 },
    /// Publish an event.
    Emit(Event),
}

/// Records the publication of `Event::PlanCreated`.
pub fn emit_plan_created(c: &mut VowenaContract, plan_id: u64, merchant: &AccountId)
    ensures
        final(c)@ == old(c)@.record(Effect::Emit(Event::PlanCreated { plan_id, merchant: *merchant })),
{
    c.effects.push(Effect::Emit(Event::PlanCreated { plan_id, merchant: *merchant }));
}

/// Records the publication of `Event::ProjectCreated`.
pub fn emit_project_created(c: &mut VowenaContract, project_id: u64, merchant: &AccountId)
    ensures
        final(c)@ == old(c)@.record(Effect::Emit(Event::ProjectCreated { project_id, merchant: *merchant })),
{
    c.effects.push(Effect::Emit(Event::ProjectCreated { project_id, merchant: *merchant }));
}

/// Records the publication of `Event::PlanAmountUpdated`.
pub fn emit_plan_amount_updated(c: &mut VowenaContract, plan_id: u64, new_amount: i128)
    ensures
        final(c)@ == old(c)@.record(Effect::Emit(Event::PlanAmountUpdated { plan_id, new_amount })),
{
    c.effects.push(Effect::Emit(Event::PlanAmountUpdated { plan_id, new_amount }));
}

/// Records the publication of `Event::SubscriptionCreated`.
pub fn emit_subscription_created(c: &mut VowenaContract, sub_id: u64, plan_id: u64, subscriber: &AccountId)
    ensures
        final(c)@ == old(c)@.record(Effect::Emit(Event::SubscriptionCreated { sub_id, plan_id, subscriber: *subscriber })),
{
    c.effects.push(Effect::Emit(Event::SubscriptionCreated { sub_id, plan_id, subscriber: *subscriber }));
}

/// Records the publication of `Event::ChargeSuccess`.
pub fn emit_charge_success(c: &mut VowenaContract, sub_id: u64, amount: i128, subscriber: &AccountId)
    ensures
        final(c)@ == old(c)@.record(Effect::Emit(Event::ChargeSuccess { sub_id, amount, subscriber: *subscriber })),
{
    c.effects.push(Effect::Emit(Event::ChargeSuccess { sub_id, amount, subscriber: *subscriber }));
}

/// Records the publication of `Event::ChargeFailed`.
pub fn emit_charge_failed(c: &mut VowenaContract, sub_id: u64, subscriber: &AccountId)
    ensures
        final(c)@ == old(c)@.record(Effect::Emit(Event::ChargeFailed { sub_id, subscriber: *subscriber })),
{
    c.effects.push(Effect::Emit(Event::ChargeFailed { sub_id, subscriber: *subscriber }));
}

/// Records the publication of `Event::SubscriptionCancelled`.
pub fn emit_subscription_cancelled(c: &mut VowenaContract, sub_id: u64, subscriber: &AccountId)
    ensures
        final(c)@ == old(c)@.record(Effect::Emit(Event::SubscriptionCancelled { sub_id, subscriber: *subscriber })),
{
    c.effects.push(Effect::Emit(Event::SubscriptionCancelled { sub_id, subscriber: *subscriber }));
}

/// Records the publication of `Event::SubscriptionPaused`.
pub fn emit_subscription_paused(c: &mut VowenaContract, sub_id: u64, subscriber: &AccountId)
    ensures
        final(c)@ == old(c)@.record(Effect::Emit(Event::SubscriptionPaused { sub_id, subscriber: *subscriber })),
{
    c.effects.push(Effect::Emit(Event::SubscriptionPaused { sub_id, subscriber: *subscriber }));
}

/// Records the publication of `Event::SubscriptionExpired`.
pub fn emit_subscription_expired(c: &mut VowenaContract, sub_id: u64, subscriber: &AccountId)
    ensures
        final(c)@ == old(c)@.record(Effect::Emit(Event::SubscriptionExpired { sub_id, subscriber: *subscriber })),
{
    c.effects.push(Effect::Emit(Event::SubscriptionExpired { sub_id, subscriber: *subscriber }));
}

/// Records the publication of `Event::SubscriptionReactivated`.
pub fn emit_subscription_reactivated(c: &mut VowenaContract, sub_id: u64, subscriber: &AccountId)
    ensures
        final(c)@ == old(c)@.record(Effect::Emit(Event::SubscriptionReactivated { sub_id, subscriber: *subscriber })),
{
    c.effects.push(Effect::Emit(Event::SubscriptionReactivated { sub_id, subscriber: *subscriber }));
}

/// Records the publication of `Event::RefundIssued`.
pub fn emit_refund_issued(c: &mut VowenaContract, sub_id: u64, amount: i128, subscriber: &AccountId)
    ensures
        final(c)@ == old(c)@.record(Effect::Emit(Event::RefundIssued { sub_id, amount, subscriber: *subscriber })),
{
    c.effects.push(Effect::Emit(Event::RefundIssued { sub_id, amount, subscriber: *subscriber }));
}

/// Records the publication of `Event::MigrationRequested`.
pub fn emit_migration_requested(c: &mut VowenaContract, old_plan_id: u64, new_plan_id: u64)
    ensures
        final(c)@ == old(c)@.record(Effect::Emit(Event::MigrationRequested { old_plan_id, new_plan_id })),
{
    c.effects.push(Effect::Emit(Event::MigrationRequested { old_plan_id, new_plan_id }));
}

/// Records the publication of `Event::MigrationAccepted`.
pub fn emit_migration_accepted(c: &mut VowenaContract, old_sub_id: u64, new_sub_id: u64, subscriber: &AccountId)
    ensures
        final(c)@ == old(c)@.record(Effect::Emit(Event::MigrationAccepted { old_sub_id, new_sub_id, subscriber: *subscriber })),
{
    c.effects.push(Effect::Emit(Event::MigrationAccepted { old_sub_id, new_sub_id, subscriber: *subscriber }));
}

/// Records the publication of `Event::MigrationRejected`.
pub fn emit_migration_rejected(c: &mut VowenaContract, sub_id: u64, subscriber: &AccountId)
    ensures
        final(c)@ == old(c)@.record(Effect::Emit(Event::MigrationRejected { sub_id, subscriber: *subscriber })),
{
    c.effects.push(Effect::Emit(Event::MigrationRejected { sub_id, subscriber: *subscriber }));
}
} // verus!
