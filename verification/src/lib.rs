//! A multi-signature treasury with roles, proposals, spending limits and an audit trail.
//!
//! The vault is a state machine: every call takes an [`env::Env`], which holds what the ledger
//! says and what is stored, and leaves in it the new state and the actions to perform.

use vstd::prelude::*;

pub mod annotations;
pub mod announcement_laws;
pub mod audit;
pub mod batch_execution;
pub mod batch_laws;
pub mod batch_proposals;
pub mod batches;
pub mod books;
pub mod bridge;
pub mod comments;
pub mod conditions;
pub mod constants;
pub mod costs;
pub mod cross_vault;
pub mod decision_laws;
pub mod defaults;
pub mod delegation;
pub mod dependencies;
pub mod dex;
pub mod disputes;
pub mod env;
pub mod errors;
pub mod escrow;
pub mod execution;
pub mod execution_laws;
pub mod fees;
pub mod figure_laws;
pub mod funding;
pub mod governance;
pub mod governing_laws;
pub mod guarantees;
pub mod holding_laws;
pub mod hooks;
pub mod lifecycle;
pub mod lifecycle_laws;
pub mod limits;
pub mod link_laws;
pub mod locks;
pub mod math;
pub mod members;
pub mod oracle;
pub mod outcome_laws;
pub mod payment_laws;
pub mod permissions;
pub mod power;
pub mod primitives;
pub mod program_laws;
pub mod proposal_laws;
pub mod proposals;
pub mod reading_laws;
pub mod recipients;
pub mod record_laws;
pub mod recovery;
pub mod recurring;
pub mod refusal_laws;
pub mod reputation;
pub mod retries;
pub mod room;
pub mod scheduling;
pub mod scheduling_laws;
pub mod standing_laws;
pub mod storage;
pub mod streams;
pub mod subscriptions;
pub mod table;
pub mod templates;
pub mod thresholds;
pub mod transfer_laws;
pub mod types;
pub mod vault_laws;
pub mod voting;
pub mod voting_laws;

verus! {

/// The vault.
///
/// A treasury under M-of-N signatures, with role-based access control, spending limits,
/// timelocks and recurring payments.
pub struct VaultDAO;

} // verus!
