//! The records a swap resolution reads: entangler timing configuration,
//! balance snapshots, and the request itself, together with the timing
//! predicates and the state-machine view of one entangler side.

use vstd::prelude::*;

verus! {

/// Timing configuration of one entangler side (parent or child), immutable at
/// call time. Times are integer seconds on the caller's clock.
#[derive(Clone, Copy, Debug)]
pub struct EntanglerConfig {
    /// Instant strictly after which swaps on this side are permitted.
    pub go_live_unix_time: i64,
    /// Instant at and after which swaps on this side are forbidden;
    /// `None` means this side never freezes.
    pub freeze_swap_unix_time: Option<i64>,
}

/// A read-only view of a token account's balance at call time.
#[derive(Clone, Copy, Debug)]
pub struct TokenBalanceSnapshot {
    /// The token quantity the account holds.
    pub amount: u64,
}

/// A swap request: either an exact quantity (`amount`) or a request to
/// exchange everything both balances permit (`all == Some(true)`).
/// A request carrying neither is malformed and is rejected.
#[derive(Clone, Copy, Debug)]
pub struct SwapV0Args {
    /// Exact requested quantity, if the caller fixed one.
    pub amount: Option<u64>,
    /// `Some(true)` asks for the maximum mutually permitted exchange.
    pub all: Option<bool>,
}

/// A request is well formed when it asks for everything or names an amount.
pub open spec fn request_well_formed(args: SwapV0Args) -> bool {
    args.all == Some(true) || args.amount is Some
}

/// One side has gone live when its go-live instant lies strictly in the past:
/// at the go-live instant itself the side is still pending.
pub open spec fn entangler_live(cfg: EntanglerConfig, now: i64) -> bool {
    cfg.go_live_unix_time < now
}

/// One side is frozen from its freeze instant on: at the freeze instant
/// itself swaps are already forbidden. A side with no freeze instant never
/// freezes.
pub open spec fn entangler_frozen(cfg: EntanglerConfig, now: i64) -> bool {
    match cfg.freeze_swap_unix_time {
        Some(t) => t <= now,
        None => false,
    }
}

/// The state of one entangler side under a given clock reading.
pub enum EntanglerState {
    /// Before the go-live instant (the go-live instant included).
    Pending,
    /// Live and not frozen: swaps on this side are permitted.
    Active,
    /// At or after the freeze instant: swaps on this side are forbidden,
    /// irreversibly, since the clock only advances.
    Frozen,
}

/// The state of one side is a pure function of its static configuration and
/// the clock reading; no event moves it other than time advancing.
pub open spec fn entangler_state(cfg: EntanglerConfig, now: i64) -> EntanglerState {
    if !entangler_live(cfg, now) {
        EntanglerState::Pending
    } else if entangler_frozen(cfg, now) {
        EntanglerState::Frozen
    } else {
        EntanglerState::Active
    }
}

} // verus!
