//! The properties the engine is meant to keep, stated over the spec-level
//! transitions of `ops` and the store invariant of `ledger`, and proved
//! once for all inputs.

use vstd::prelude::*;
use crate::ledger::Ledger;
use crate::ops;
use crate::state::CubeGameError;
use crate::state::Pubkey;

verus! {

/// A committed claim is permanent. Running the claim transition on records
/// it already went through — a second claim of the same resource, however
/// soon it follows — fails with `CubeAlreadyRemoved` and changes nothing,
/// whoever retries and whatever they can pay; and the treasury has grown
/// by exactly one `price_per_cube`, never two.
pub proof fn lemma_claim_is_permanent(
    pre: ops::RemoveCube,
    id1: String,
    now1: i64,
    retry: Pubkey,
    retry_balance: u64,
    id2: String,
    now2: i64,
)
    requires
        ops::remove_cube_allowed(pre),
        ops::remove_cube_fits(pre),
    ensures
        ({
            let mid = ops::remove_cube_post(pre, id1, now1);
            let again = ops::RemoveCube {
                player: retry,
                player_balance: retry_balance,
                ..mid
            };
            &&& !ops::remove_cube_allowed(again)
            &&& ops::remove_cube_error(again) == CubeGameError::CubeAlreadyRemoved
            &&& ops::remove_cube_post(again, id2, now2) == again
            &&& mid.treasury_balance == pre.treasury_balance + pre.game_state.price_per_cube
        }),
{
}

/// The configuration's counter is an exact census: in every reachable
/// store it equals the number of committed claim records, and the number
/// of emitted notifications — each committed claim counted exactly once,
/// whatever the order and interleaving of the claims that produced the
/// store. (Every operation keeps `wf()`, so every reachable store
/// satisfies the hypothesis.)
pub proof fn lemma_total_counts_committed_claims(l: Ledger)
    requires
        l.wf(),
        l.is_initialized(),
    ensures
        l.spec_total() == l.cubes@.len(),
        l.spec_total() == l.events@.len(),
{
}

/// Reprice by anyone but the authority always fails with `Unauthorized`
/// and leaves `price_per_cube` — and everything else — unchanged.
pub proof fn lemma_reprice_unauthorized(pre: ops::SetPrice, new_price: u64)
    requires
        pre.authority != pre.game_state.authority,
    ensures
        !ops::set_price_allowed(pre),
        ops::set_price_post(pre, new_price) == pre,
{
}

/// A withdrawal of more than the treasury holds always fails and leaves
/// every balance unchanged: the unsigned balance fails closed, it never
/// wraps.
pub proof fn lemma_withdraw_over_balance(pre: ops::Withdraw, amount: u64)
    requires
        amount > pre.treasury_balance,
    ensures
        !ops::withdraw_allowed(pre, amount),
        ops::withdraw_post(pre, amount) == pre,
{
}

/// A claim pays the price in force at claim time: after initializing with
/// price `p` and repricing to `p2`, a claim moves exactly `p2` from the
/// claimant to the treasury — never the original `p`.
pub proof fn lemma_claim_charges_price_at_claim_time(
    init: ops::Initialize,
    p: u64,
    p2: u64,
    claim: ops::RemoveCube,
    id: String,
    now: i64,
)
    requires
        ({
            let created = ops::initialize_post(init, p).game_state;
            let repriced = ops::set_price_post(
                ops::SetPrice { game_state: created, authority: created.authority },
                p2,
            ).game_state;
            claim.game_state == repriced
        }),
        ops::remove_cube_allowed(claim),
        ops::remove_cube_fits(claim),
    ensures
        ({
            let done = ops::remove_cube_post(claim, id, now);
            &&& done.treasury_balance == claim.treasury_balance + p2
            &&& done.player_balance == claim.player_balance - p2
        }),
{
}

} // verus!
