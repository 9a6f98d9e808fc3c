//! Atomic settlement, idempotent billing and cross-ledger relay logic.
//!
//! Every money movement in this crate is expressed in whole minor units, and
//! every state machine is a function from the current state and an observed
//! event to the next state and the action to perform. Nothing here reads a
//! clock, a store or a network: the caller performs the actions and reports
//! what happened.
//!
//! * [`amount`] and [`ident`]: money in minor units, and the identities of
//!   domains, accounts and assets.
//! * [`instruction`] and [`ledger`]: ledger instructions, batches that commit
//!   as one unit, and an in-memory ledger that commits them all or nothing.
//! * [`settlement`]: the errors of a settlement, which of them may be tried
//!   again, and after how long.
//! * [`billing`] and [`runner`]: the invoice of a subscription, and the runs
//!   that collect it at most once per tenant and period.
//! * [`bridge`]: the requests that the relay releases on the other ledger,
//!   each at most once.
//! * [`tiers`], [`templates`], [`unit`], [`usecases`], [`partner`] and
//!   [`explorer`]: the price list, ready-made batches, requests as they
//!   arrive from callers, requests to partners and the replies to them, and
//!   the rows of the chain explorer.
//! * [`table`] and [`text`]: an association table and text helpers that the
//!   others build on.

pub mod text;
pub mod ident;
pub mod amount;
pub mod tiers;
pub mod settlement;
pub mod table;
pub mod instruction;
pub mod ledger;
pub mod billing;
pub mod runner;
pub mod bridge;
pub mod templates;
pub mod unit;
pub mod usecases;
pub mod partner;
pub mod explorer;
