//! The resolver's laws: what resolution returns on whole classes of inputs,
//! stated over the same spec functions its contract uses and proved once for
//! every input in the class.

use vstd::prelude::*;

use crate::error::ErrorCode;
use crate::state::{
    entangler_frozen, entangler_live, entangler_state, request_well_formed, EntanglerConfig,
    EntanglerState, SwapV0Args, TokenBalanceSnapshot,
};
use crate::swap::{all_exchange_amount, resolve_spec, SwapAmount};

verus! {

/// A well-formed request made while either side has not yet gone live is
/// rejected for that reason, whatever the balances and whatever else the
/// request says. (A malformed request is rejected as such before any timing
/// gate, so well-formedness is assumed here.)
pub proof fn lemma_not_live_rejects(
    parent: EntanglerConfig,
    child: EntanglerConfig,
    base: TokenBalanceSnapshot,
    source: TokenBalanceSnapshot,
    now: i64,
    args: SwapV0Args,
)
    requires
        request_well_formed(args),
        !entangler_live(parent, now) || !entangler_live(child, now),
    ensures
        resolve_spec(parent, child, base, source, now, args) == Err::<
            SwapAmount,
            ErrorCode,
        >(ErrorCode::ParentNotLiveYet) || resolve_spec(parent, child, base, source, now, args)
            == Err::<SwapAmount, ErrorCode>(ErrorCode::ChildNotLiveYet),
{
}

/// A well-formed request made while both sides are live but either side has
/// reached its freeze instant is rejected as frozen, even though go-live has
/// passed: a parent freeze is reported first, a child freeze otherwise.
pub proof fn lemma_frozen_rejects(
    parent: EntanglerConfig,
    child: EntanglerConfig,
    base: TokenBalanceSnapshot,
    source: TokenBalanceSnapshot,
    now: i64,
    args: SwapV0Args,
)
    requires
        request_well_formed(args),
        entangler_live(parent, now),
        entangler_live(child, now),
        entangler_frozen(parent, now) || entangler_frozen(child, now),
    ensures
        entangler_frozen(parent, now) ==> resolve_spec(parent, child, base, source, now, args)
            == Err::<SwapAmount, ErrorCode>(ErrorCode::ParentSwapFrozen),
        !entangler_frozen(parent, now) ==> resolve_spec(parent, child, base, source, now, args)
            == Err::<SwapAmount, ErrorCode>(ErrorCode::ChildSwapFrozen),
{
}

/// When every gate passes, an "exchange everything" request resolves to the
/// smaller of the two balances.
pub proof fn lemma_all_request_resolves_min(
    parent: EntanglerConfig,
    child: EntanglerConfig,
    base: TokenBalanceSnapshot,
    source: TokenBalanceSnapshot,
    now: i64,
    args: SwapV0Args,
)
    requires
        args.all == Some(true),
        entangler_live(parent, now),
        entangler_live(child, now),
        !entangler_frozen(parent, now),
        !entangler_frozen(child, now),
    ensures
        resolve_spec(parent, child, base, source, now, args) matches Ok(r) && r.amount
            == all_exchange_amount(base, source),
        all_exchange_amount(base, source) as int == vstd::math::min(
            source.amount as int,
            base.amount as int,
        ),
{
}

/// An "exchange everything" request is insensitive to its `amount` field:
/// two such requests resolve identically under the same configurations and
/// balances, whether or not an amount is also present.
pub proof fn lemma_all_request_ignores_amount(
    parent: EntanglerConfig,
    child: EntanglerConfig,
    base: TokenBalanceSnapshot,
    source: TokenBalanceSnapshot,
    now: i64,
    args1: SwapV0Args,
    args2: SwapV0Args,
)
    requires
        args1.all == Some(true),
        args2.all == Some(true),
    ensures
        resolve_spec(parent, child, base, source, now, args1) == resolve_spec(
            parent,
            child,
            base,
            source,
            now,
            args2,
        ),
{
}

/// When every gate passes, a fixed-amount request succeeds exactly when the
/// base balance covers the requested amount, and then resolves to that
/// amount, unclamped. Only the base balance is consulted: the source balance
/// plays no part in this path.
pub proof fn lemma_fixed_request_resolution(
    parent: EntanglerConfig,
    child: EntanglerConfig,
    base: TokenBalanceSnapshot,
    source: TokenBalanceSnapshot,
    now: i64,
    args: SwapV0Args,
)
    requires
        args.all != Some(true),
        args.amount is Some,
        entangler_live(parent, now),
        entangler_live(child, now),
        !entangler_frozen(parent, now),
        !entangler_frozen(child, now),
    ensures
        resolve_spec(parent, child, base, source, now, args) is Ok <==> base.amount
            >= args.amount->0,
        base.amount >= args.amount->0 ==> (resolve_spec(parent, child, base, source, now, args)
            matches Ok(r) && r.amount == args.amount->0),
        base.amount < args.amount->0 ==> resolve_spec(parent, child, base, source, now, args)
            == Err::<SwapAmount, ErrorCode>(ErrorCode::TokenAccountAmountTooLow),
{
}

/// Resolution is a pure function of its six inputs: two resolutions over
/// pairwise identical inputs return identical results. There is no hidden
/// state to consult.
pub proof fn lemma_resolve_pure(
    parent1: EntanglerConfig,
    child1: EntanglerConfig,
    base1: TokenBalanceSnapshot,
    source1: TokenBalanceSnapshot,
    now1: i64,
    args1: SwapV0Args,
    parent2: EntanglerConfig,
    child2: EntanglerConfig,
    base2: TokenBalanceSnapshot,
    source2: TokenBalanceSnapshot,
    now2: i64,
    args2: SwapV0Args,
)
    requires
        parent1 == parent2,
        child1 == child2,
        base1 == base2,
        source1 == source2,
        now1 == now2,
        args1 == args2,
    ensures
        resolve_spec(parent1, child1, base1, source1, now1, args1) == resolve_spec(
            parent2,
            child2,
            base2,
            source2,
            now2,
            args2,
        ),
{
}

/// The boundary instants, exactly: at the go-live instant itself a side is
/// not yet live (strictly after is required), while at the freeze instant
/// itself it is already frozen; with the freeze instant still strictly ahead
/// it is not frozen.
pub proof fn lemma_boundary_instants(cfg: EntanglerConfig, now: i64)
    ensures
        cfg.go_live_unix_time == now ==> !entangler_live(cfg, now),
        cfg.freeze_swap_unix_time == Some(now) ==> entangler_frozen(cfg, now),
        (cfg.freeze_swap_unix_time matches Some(t) && t > now) ==> !entangler_frozen(cfg, now),
{
}

/// An amount is resolved exactly when the request is well formed, both sides
/// are simultaneously `Active`, and — for a fixed-amount request — the base
/// balance covers the amount. `Pending` and `Frozen` sides never let a swap
/// through.
pub proof fn lemma_ok_characterization(
    parent: EntanglerConfig,
    child: EntanglerConfig,
    base: TokenBalanceSnapshot,
    source: TokenBalanceSnapshot,
    now: i64,
    args: SwapV0Args,
)
    ensures
        resolve_spec(parent, child, base, source, now, args) is Ok <==> {
            &&& request_well_formed(args)
            &&& entangler_state(parent, now) is Active
            &&& entangler_state(child, now) is Active
            &&& (args.all == Some(true) || base.amount >= args.amount->0)
        },
{
}

} // verus!
