use vstd::prelude::*;

verus! {

// ── Ledger window constants ───────────────────────────────────────────────────
//
// Conversion: 1 ledger ≈ 5 s on Stellar Mainnet (Protocol 20+).
pub const SECS_PER_LEDGER: u32 = 5;

pub const LEDGERS_PER_MIN: u32 = 12;

pub const LEDGERS_PER_HOUR: u32 = 720;

pub const LEDGERS_PER_DAY: u32 = 17_280;

pub const LEDGERS_PER_WEEK: u32 = 120_960;

/// How long a premium quote stays valid.
pub const QUOTE_TTL_LEDGERS: u32 = 720;

/// How long a policy runs once bound (365 days).
pub const POLICY_DURATION_LEDGERS: u32 = 6_307_200;

/// How long the vote on a claim stays open.
pub const VOTE_WINDOW_LEDGERS: u32 = 120_960;

/// The least distance between two claims of one holder.
pub const RATE_LIMIT_WINDOW_LEDGERS: u32 = 17_280;

/// How long before its end a policy may be renewed.
pub const RENEWAL_WINDOW_LEDGERS: u32 = 120_960;

} // verus!
