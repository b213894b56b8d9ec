//! The records the engine works on, and its error kinds.

use vstd::prelude::*;

verus! {

/// Longest resource identifier the store accepts.
pub const MAX_CUBE_ID_LEN: usize = 32;

/// An external principal on the host ledger (a participant or the
/// authority), modelled by an opaque numeric identifier: the transition
/// logic only ever compares identities for equality.
#[derive(Clone, Copy, PartialEq, Eq, Structural, Debug)]
pub struct Pubkey {
    pub value: u64,
}

impl Pubkey {
    /// The all-zero identity, the owner field of a record nobody has
    /// touched yet.
    pub fn zeroed() -> (r: Pubkey)
        ensures
            r == (Pubkey { value: 0 }),
    {
        Pubkey { value: 0 }
    }
}

/// Singleton configuration record: the authority, the fee per claim, and
/// the running count of committed claims.
#[derive(Clone, Copy, PartialEq, Eq, Structural, Debug)]
pub struct GameState {
    pub authority: Pubkey,
    pub price_per_cube: u64,
    pub total_cubes_removed: u64,
    /// Value binding the record to its deterministic address on the host
    /// ledger; set at creation, never read by the transition logic.
    pub bump: u8,
}

/// One record per resource identifier: whether the cube was claimed, by
/// whom, and when. `is_removed` goes false to true at most once and never
/// back.
#[derive(Debug)]
pub struct CubeRecord {
    pub is_removed: bool,
    pub removed_by: Pubkey,
    pub removed_at: i64,
    pub cube_id: String,
}

/// One record per participant: the running count of claims they committed.
#[derive(Clone, Copy, PartialEq, Eq, Structural, Debug)]
pub struct PlayerStats {
    pub player: Pubkey,
    pub cubes_removed: u64,
}

/// Notification appended after each committed claim, for external
/// observers; fire-and-forget, never read back by the engine.
#[derive(Debug)]
pub struct CubeRemovedEvent {
    pub cube_id: String,
    pub player: Pubkey,
    pub total_removed: u64,
    pub timestamp: i64,
}

/// Every way an operation can be refused. Each aborts the enclosing
/// transaction with zero partial effect.
#[derive(Clone, Copy, PartialEq, Eq, Structural, Debug)]
pub enum CubeGameError {
    /// Claim of a resource whose record already has `is_removed` set.
    CubeAlreadyRemoved,
    /// Reprice or withdraw by an identity other than the authority.
    Unauthorized,
    /// The payer (claimant or treasury) cannot cover the requested amount.
    InsufficientFunds,
    /// A second initialization: the configuration record already exists.
    DuplicateInitialization,
}

} // verus!
