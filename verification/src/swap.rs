//! The swap eligibility and amount resolver: validation gates in a fixed
//! order, then the amount computation.

use vstd::prelude::*;

use crate::error::ErrorCode;
use crate::state::{
    entangler_frozen, entangler_live, request_well_formed, EntanglerConfig, SwapV0Args,
    TokenBalanceSnapshot,
};

verus! {

/// The resolved transfer quantity, computed fresh per call and consumed
/// immediately by the caller's transfer step.
#[derive(Clone, Copy, Debug, PartialEq, Eq)]
pub struct SwapAmount {
    /// The exact quantity to transfer.
    pub amount: u64,
}

/// The amount an "exchange everything" request resolves to: the source cannot
/// give more than it holds, and the base account cannot take more than it
/// holds, so the smaller of the two balances.
pub open spec fn all_exchange_amount(base: TokenBalanceSnapshot, source: TokenBalanceSnapshot) -> u64 {
    if source.amount > base.amount {
        base.amount
    } else {
        source.amount
    }
}

/// What resolution returns, gate by gate. The gates run in a fixed order and
/// the first failure wins; the order decides only which rejection is
/// reported, not whether an amount is ever produced.
///
/// The fixed-amount path deliberately checks only the base balance, never the
/// source balance: source-side sufficiency is enforced by the transfer step
/// that consumes the resolved amount.
pub open spec fn resolve_spec(
    parent: EntanglerConfig,
    child: EntanglerConfig,
    base: TokenBalanceSnapshot,
    source: TokenBalanceSnapshot,
    now: i64,
    args: SwapV0Args,
) -> Result<SwapAmount, ErrorCode> {
    if !request_well_formed(args) {
        Err(ErrorCode::InvalidArgs)
    } else if !entangler_live(parent, now) {
        Err(ErrorCode::ParentNotLiveYet)
    } else if !entangler_live(child, now) {
        Err(ErrorCode::ChildNotLiveYet)
    } else if entangler_frozen(parent, now) {
        Err(ErrorCode::ParentSwapFrozen)
    } else if entangler_frozen(child, now) {
        Err(ErrorCode::ChildSwapFrozen)
    } else if args.all == Some(true) {
        Ok(SwapAmount { amount: all_exchange_amount(base, source) })
    } else if base.amount >= args.amount->0 {
        Ok(SwapAmount { amount: args.amount->0 })
    } else {
        Err(ErrorCode::TokenAccountAmountTooLow)
    }
}

/// Decides whether a swap may proceed and computes the exact quantity to
/// transfer: `min(source, base)` for an "exchange everything" request, the
/// requested quantity for a fixed-amount request that the base balance
/// covers, and a rejection otherwise.
///
/// Pure: it mutates none of its inputs, and the result is a function of the
/// arguments alone, so two calls on identical inputs return identical
/// results.
pub fn swap_shared_logic(
    parent_entangler: &EntanglerConfig,
    child_entangler: &EntanglerConfig,
    base: &TokenBalanceSnapshot,
    source: &TokenBalanceSnapshot,
    now: i64,
    args: &SwapV0Args,
) -> (res: Result<SwapAmount, ErrorCode>)
    ensures
        res == resolve_spec(*parent_entangler, *child_entangler, *base, *source, now, *args),
{
    let all_requested = match args.all {
        Some(true) => true,
        _ => false,
    };
    if !(all_requested || args.amount.is_some()) {
        return Err(ErrorCode::InvalidArgs);
    }
    if !(parent_entangler.go_live_unix_time < now) {
        return Err(ErrorCode::ParentNotLiveYet);
    }
    if !(child_entangler.go_live_unix_time < now) {
        return Err(ErrorCode::ChildNotLiveYet);
    }
    let parent_frozen = match parent_entangler.freeze_swap_unix_time {
        Some(t) => t <= now,
        None => false,
    };
    if parent_frozen {
        return Err(ErrorCode::ParentSwapFrozen);
    }
    let child_frozen = match child_entangler.freeze_swap_unix_time {
        Some(t) => t <= now,
        None => false,
    };
    if child_frozen {
        return Err(ErrorCode::ChildSwapFrozen);
    }
    if all_requested {
        let amount = if source.amount > base.amount {
            base.amount
        } else {
            source.amount
        };
        Ok(SwapAmount { amount })
    } else {
        let amount = args.amount.unwrap();
        if !(base.amount >= amount) {
            return Err(ErrorCode::TokenAccountAmountTooLow);
        }
        Ok(SwapAmount { amount })
    }
}

} // verus!
