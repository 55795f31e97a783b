//! Escrow and milestone-payment ledger for a freelance marketplace.
//!
//! A depositor locks funds against a beneficiary's milestones; funds are
//! released as milestones are approved, and a dispute path lets the parties or
//! an arbiter split a contested milestone.  Every operation works on an
//! explicit [`SecureFlow`] value, takes the caller, the logical time and any value
//! attached to the call as plain inputs, and hands back the [`Transfer`]s that
//! the host must perform once the operation has committed.  An operation that
//! fails leaves the ledger exactly as it was.
//!
//! Fee policy: the platform fee (`total * fee_bp / 10000`) is collected on top
//! of the milestone total when an escrow is created, and becomes withdrawable
//! when work starts.

pub mod types;
pub mod errors;
pub mod table;
pub mod model;
pub mod ledger;
pub mod lifecycle;
pub mod escrow;
pub mod refund;
pub mod marketplace;
pub mod laws;
pub mod admin;
pub mod views;

pub use errors::Error;
pub use ledger::SecureFlow;
pub use model::{Application, Config, Escrow, Milestone, Transfer};
pub use table::AddressTable;
pub use types::{Address, EscrowStatus, MilestoneStatus};
pub use views::EscrowSummary;
