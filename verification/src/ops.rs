//! The four operations as state transitions.
//!
//! Each operation works on a context struct holding the records the host
//! resolved for it, mirrors the host's account bundle for that operation,
//! and is specified by a spec-level post function: the exec function's
//! result and mutations are pinned exactly to it. The host (or the
//! in-memory `ledger`) resolves the records, runs the transition, and
//! commits the context back only on success, so a refused operation has
//! zero effect.

use vstd::prelude::*;
use crate::state::CubeGameError;
use crate::state::CubeRecord;
use crate::state::CubeRemovedEvent;
use crate::state::GameState;
use crate::state::MAX_CUBE_ID_LEN;
use crate::state::PlayerStats;
use crate::state::Pubkey;

verus! {

/// Records for initialization: the freshly created configuration record
/// (all defaults) and the caller, who becomes the authority.
pub struct Initialize {
    pub game_state: GameState,
    pub authority: Pubkey,
    /// Address-derivation value the host computed for the new record.
    pub bump: u8,
}

/// Records for a claim: the configuration, the cube record for the claimed
/// identifier (fresh with defaults if none was stored), the claimant's
/// statistics record (fresh if none), and the two balances the payment
/// moves between.
pub struct RemoveCube {
    pub game_state: GameState,
    pub cube_record: CubeRecord,
    pub player_stats: PlayerStats,
    pub treasury_balance: u64,
    pub player: Pubkey,
    pub player_balance: u64,
}

/// Records for a reprice: the configuration and the calling identity.
pub struct SetPrice {
    pub game_state: GameState,
    pub authority: Pubkey,
}

/// Records for a withdrawal: the configuration, the treasury balance, the
/// calling identity and its balance.
pub struct Withdraw {
    pub game_state: GameState,
    pub treasury_balance: u64,
    pub authority: Pubkey,
    pub authority_balance: u64,
}

// ---------------------------------------------------------------------
// Initialization
// ---------------------------------------------------------------------

/// What initialization does: the caller becomes the authority, the given
/// price is set, the claim counter starts at zero, the bump is bound.
pub open spec fn initialize_post(pre: Initialize, price_per_cube: u64) -> Initialize {
    Initialize {
        game_state: GameState {
            authority: pre.authority,
            price_per_cube: price_per_cube,
            total_cubes_removed: 0,
            bump: pre.bump,
        },
        ..pre
    }
}

/// Create the configuration record's contents. The "at most once" rule is
/// the store's: it hands this transition a fresh record only while none
/// exists, and refuses a second creation with `DuplicateInitialization`.
pub fn initialize(ctx: &mut Initialize, price_per_cube: u64) -> (r: Result<(), CubeGameError>)
    ensures
        *final(ctx) == initialize_post(*old(ctx), price_per_cube),
        r == Ok::<(), CubeGameError>(()),
{
    ctx.game_state.authority = ctx.authority;
    ctx.game_state.price_per_cube = price_per_cube;
    ctx.game_state.total_cubes_removed = 0;
    ctx.game_state.bump = ctx.bump;
    Ok(())
}

// ---------------------------------------------------------------------
// Claim
// ---------------------------------------------------------------------

/// A claim goes through exactly when the cube is still unclaimed and the
/// claimant can pay the current price.
pub open spec fn remove_cube_allowed(pre: RemoveCube) -> bool {
    &&& !pre.cube_record.is_removed
    &&& pre.player_balance >= pre.game_state.price_per_cube
}

/// The error a refused claim reports: an already-set claim flag wins over
/// a funding shortfall, as the flag is checked before payment is attempted.
pub open spec fn remove_cube_error(pre: RemoveCube) -> CubeGameError {
    if pre.cube_record.is_removed {
        CubeGameError::CubeAlreadyRemoved
    } else {
        CubeGameError::InsufficientFunds
    }
}

/// Machine limits a committed claim must stay inside: the two counters and
/// the treasury balance must not overflow their representation.
pub open spec fn remove_cube_fits(pre: RemoveCube) -> bool {
    &&& pre.game_state.total_cubes_removed < u64::MAX
    &&& pre.player_stats.cubes_removed < u64::MAX
    &&& pre.treasury_balance + pre.game_state.price_per_cube <= u64::MAX
}

/// What a claim does when allowed: exactly one price moves from claimant
/// to treasury, the cube record is filled in, both counters go up by one.
/// When refused, nothing changes.
pub open spec fn remove_cube_post(pre: RemoveCube, cube_id: String, now: i64) -> RemoveCube {
    if remove_cube_allowed(pre) {
        RemoveCube {
            game_state: GameState {
                total_cubes_removed: (pre.game_state.total_cubes_removed + 1) as u64,
                ..pre.game_state
            },
            cube_record: CubeRecord {
                is_removed: true,
                removed_by: pre.player,
                removed_at: now,
                cube_id: cube_id,
            },
            player_stats: PlayerStats {
                player: pre.player,
                cubes_removed: (pre.player_stats.cubes_removed + 1) as u64,
            },
            treasury_balance: (pre.treasury_balance + pre.game_state.price_per_cube) as u64,
            player: pre.player,
            player_balance: (pre.player_balance - pre.game_state.price_per_cube) as u64,
        }
    } else {
        pre
    }
}

/// The notification a committed claim emits.
pub open spec fn remove_cube_event(pre: RemoveCube, cube_id: String, now: i64) -> CubeRemovedEvent {
    CubeRemovedEvent {
        cube_id: cube_id,
        player: pre.player,
        total_removed: (pre.game_state.total_cubes_removed + 1) as u64,
        timestamp: now,
    }
}

/// Claim the cube: check the claim flag, move the payment, fill the
/// record, bump the counters, and hand back the notification to emit.
pub fn remove_cube(ctx: &mut RemoveCube, cube_id: String, now: i64) -> (r: Result<
    CubeRemovedEvent,
    CubeGameError,
>)
    requires
        cube_id@.len() <= MAX_CUBE_ID_LEN,
        remove_cube_allowed(*old(ctx)) ==> remove_cube_fits(*old(ctx)),
    ensures
        *final(ctx) == remove_cube_post(*old(ctx), cube_id, now),
        remove_cube_allowed(*old(ctx)) ==> r == Ok::<CubeRemovedEvent, CubeGameError>(
            remove_cube_event(*old(ctx), cube_id, now),
        ),
        !remove_cube_allowed(*old(ctx)) ==> r == Err::<CubeRemovedEvent, CubeGameError>(
            remove_cube_error(*old(ctx)),
        ),
{
    // The decision goes by the claim flag, never by mere record presence:
    // a freshly created record carries `is_removed == false`.
    if ctx.cube_record.is_removed {
        return Err(CubeGameError::CubeAlreadyRemoved);
    }
    // Move exactly one price from the claimant to the treasury; a payer
    // that cannot cover it aborts the whole operation, nothing mutated.
    if ctx.player_balance < ctx.game_state.price_per_cube {
        return Err(CubeGameError::InsufficientFunds);
    }
    ctx.player_balance = ctx.player_balance - ctx.game_state.price_per_cube;
    ctx.treasury_balance = ctx.treasury_balance + ctx.game_state.price_per_cube;

    ctx.cube_record.is_removed = true;
    ctx.cube_record.removed_by = ctx.player;
    ctx.cube_record.removed_at = now;
    ctx.cube_record.cube_id = cube_id.clone();

    ctx.game_state.total_cubes_removed = ctx.game_state.total_cubes_removed + 1;

    ctx.player_stats.cubes_removed = ctx.player_stats.cubes_removed + 1;
    ctx.player_stats.player = ctx.player;

    Ok(
        CubeRemovedEvent {
            cube_id: cube_id,
            player: ctx.player,
            total_removed: ctx.game_state.total_cubes_removed,
            timestamp: now,
        },
    )
}

// ---------------------------------------------------------------------
// Reprice
// ---------------------------------------------------------------------

/// Only the authority may reprice.
pub open spec fn set_price_allowed(pre: SetPrice) -> bool {
    pre.authority == pre.game_state.authority
}

/// What a reprice does: overwrite the price, any value accepted, nothing
/// else touched; by anyone but the authority, nothing at all.
pub open spec fn set_price_post(pre: SetPrice, new_price: u64) -> SetPrice {
    if set_price_allowed(pre) {
        SetPrice { game_state: GameState { price_per_cube: new_price, ..pre.game_state }, ..pre }
    } else {
        pre
    }
}

/// Overwrite the fee per claim. A caller other than the authority is
/// refused with `Unauthorized` and changes nothing.
pub fn set_price(ctx: &mut SetPrice, new_price: u64) -> (r: Result<(), CubeGameError>)
    ensures
        *final(ctx) == set_price_post(*old(ctx), new_price),
        set_price_allowed(*old(ctx)) ==> r == Ok::<(), CubeGameError>(()),
        !set_price_allowed(*old(ctx)) ==> r == Err::<(), CubeGameError>(
            CubeGameError::Unauthorized,
        ),
{
    if !(ctx.authority == ctx.game_state.authority) {
        return Err(CubeGameError::Unauthorized);
    }
    ctx.game_state.price_per_cube = new_price;
    Ok(())
}

// ---------------------------------------------------------------------
// Withdraw
// ---------------------------------------------------------------------

/// A withdrawal goes through exactly when the caller is the authority and
/// the treasury covers the amount: an unsigned balance must fail closed,
/// never wrap.
pub open spec fn withdraw_allowed(pre: Withdraw, amount: u64) -> bool {
    &&& pre.authority == pre.game_state.authority
    &&& amount <= pre.treasury_balance
}

/// The error a refused withdrawal reports: authorization is checked before
/// the balance.
pub open spec fn withdraw_error(pre: Withdraw, amount: u64) -> CubeGameError {
    if pre.authority != pre.game_state.authority {
        CubeGameError::Unauthorized
    } else {
        CubeGameError::InsufficientFunds
    }
}

/// Machine limit a committed withdrawal must stay inside: the authority's
/// balance must not overflow its representation.
pub open spec fn withdraw_fits(pre: Withdraw, amount: u64) -> bool {
    pre.authority_balance + amount <= u64::MAX
}

/// What a withdrawal does when allowed: the amount moves from the treasury
/// to the authority. When refused, every balance stays as it was.
pub open spec fn withdraw_post(pre: Withdraw, amount: u64) -> Withdraw {
    if withdraw_allowed(pre, amount) {
        Withdraw {
            treasury_balance: (pre.treasury_balance - amount) as u64,
            authority_balance: (pre.authority_balance + amount) as u64,
            ..pre
        }
    } else {
        pre
    }
}

/// Move collected funds from the treasury to the authority.
pub fn withdraw(ctx: &mut Withdraw, amount: u64) -> (r: Result<(), CubeGameError>)
    requires
        withdraw_allowed(*old(ctx), amount) ==> withdraw_fits(*old(ctx), amount),
    ensures
        *final(ctx) == withdraw_post(*old(ctx), amount),
        withdraw_allowed(*old(ctx), amount) ==> r == Ok::<(), CubeGameError>(()),
        !withdraw_allowed(*old(ctx), amount) ==> r == Err::<(), CubeGameError>(
            withdraw_error(*old(ctx), amount),
        ),
{
    if !(ctx.authority == ctx.game_state.authority) {
        return Err(CubeGameError::Unauthorized);
    }
    if amount > ctx.treasury_balance {
        return Err(CubeGameError::InsufficientFunds);
    }
    ctx.treasury_balance = ctx.treasury_balance - amount;
    ctx.authority_balance = ctx.authority_balance + amount;
    Ok(())
}

} // verus!
