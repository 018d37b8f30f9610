//! Recurring payments for a token ledger: merchants publish plans, subscribers
//! sign up and grant an allowance, anyone triggers a charge once it is due, and
//! subscriptions move through trial, grace, pause, cancellation, expiry and
//! plan migration. The ledger state and every decision are here, verified; the
//! host carries out the token calls and event publications that the entry
//! points record (see [`events::Effect`]).

pub mod billing;
pub mod contract;
pub mod errors;
pub mod events;
pub mod guards;
pub mod laws;
pub mod migration;
pub mod storage;
pub mod types;

pub use errors::VowenaError;
pub use storage::VowenaContract;
pub use types::{Plan, Subscription, SubscriptionStatus};
