//! Limits and intervals.

use vstd::prelude::*;

verus! {

/// How long a proposal can be decided on: about seven days, in ledgers.
pub const PROPOSAL_EXPIRY_LEDGERS: u64 = 120_960;

/// Seconds per ledger, about.
pub const LEDGER_INTERVAL_SECONDS: u64 = 5;

/// How many proposals a batch holds at most.
pub const MAX_BATCH_SIZE: u32 = 10;

/// How many metadata entries a proposal holds at most.
pub const MAX_METADATA_ENTRIES: u32 = 16;

/// How many bytes a metadata value holds at most.
pub const MAX_METADATA_VALUE_LEN: u32 = 256;

/// How many tags a proposal holds at most.
pub const MAX_TAGS: u32 = 10;

/// How many attachments a proposal holds at most.
pub const MAX_ATTACHMENTS: u32 = 10;

/// How many characters the identifier of an attachment has at least.
pub const MIN_ATTACHMENT_LEN: u32 = 46;

/// How many characters the identifier of an attachment has at most.
pub const MAX_ATTACHMENT_LEN: u32 = 128;

/// Ledgers between two payments of a recurring payment, at least: about one hour.
pub const MIN_RECURRING_INTERVAL: u64 = 720;

/// How far every identifier counter stays below the largest number.
pub const COUNTER_ROOM: u64 = 1_000;

} // verus!
