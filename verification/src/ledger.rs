//! An in-memory instance of the whole system: the configuration record,
//! the claim and statistics records, every participant's balance, the
//! treasury, and the notification log.
//!
//! The host runtime the engine is written for resolves records by
//! deterministic address and commits each operation all-or-nothing; this
//! store plays that part here. Each method resolves the records an
//! operation needs, runs the transition from `ops`, and writes the results
//! back only when the transition succeeded, so a refused operation leaves
//! the store exactly as it was.

use vstd::prelude::*;
use crate::ops;
use crate::state::CubeGameError;
use crate::state::CubeRecord;
use crate::state::CubeRemovedEvent;
use crate::state::GameState;
use crate::state::MAX_CUBE_ID_LEN;
use crate::state::PlayerStats;
use crate::state::Pubkey;

verus! {

/// One participant's holding of native currency.
#[derive(Clone, Copy, PartialEq, Eq, Structural, Debug)]
pub struct Balance {
    pub owner: Pubkey,
    pub amount: u64,
}

// ---------------------------------------------------------------------
// Keyed lookups over the stored sequences
// ---------------------------------------------------------------------

/// Some entry of `s` belongs to `owner`.
pub open spec fn owner_present(s: Seq<Balance>, owner: Pubkey) -> bool {
    exists|i: int| 0 <= i < s.len() && (#[trigger] s[i]).owner == owner
}

/// The balance `s` records for `owner`; an identity without an entry
/// holds nothing.
pub open spec fn balance_in(s: Seq<Balance>, owner: Pubkey) -> u64 {
    if owner_present(s, owner) {
        let i = choose|i: int| 0 <= i < s.len() && (#[trigger] s[i]).owner == owner;
        s[i].amount
    } else {
        0u64
    }
}

/// No two entries of `s` belong to the same identity.
pub open spec fn unique_owners(s: Seq<Balance>) -> bool {
    forall|i: int, j: int|
        0 <= i < s.len() && 0 <= j < s.len() && i != j ==> (#[trigger] s[i]).owner != (
        #[trigger] s[j]).owner
}

/// Some entry of `s` belongs to `player`.
pub open spec fn player_present(s: Seq<PlayerStats>, player: Pubkey) -> bool {
    exists|i: int| 0 <= i < s.len() && (#[trigger] s[i]).player == player
}

/// The claim count `s` records for `player`; a participant without a
/// record has committed no claim.
pub open spec fn claims_in(s: Seq<PlayerStats>, player: Pubkey) -> u64 {
    if player_present(s, player) {
        let i = choose|i: int| 0 <= i < s.len() && (#[trigger] s[i]).player == player;
        s[i].cubes_removed
    } else {
        0u64
    }
}

/// No two entries of `s` belong to the same participant.
pub open spec fn unique_players(s: Seq<PlayerStats>) -> bool {
    forall|i: int, j: int|
        0 <= i < s.len() && 0 <= j < s.len() && i != j ==> (#[trigger] s[i]).player != (
        #[trigger] s[j]).player
}

proof fn lemma_balance_at(s: Seq<Balance>, i: int, owner: Pubkey)
    requires
        unique_owners(s),
        0 <= i < s.len(),
        s[i].owner == owner,
    ensures
        balance_in(s, owner) == s[i].amount,
{
    assert(owner_present(s, owner));
    let j = choose|j: int| 0 <= j < s.len() && (#[trigger] s[j]).owner == owner;
    assert(j == i);
}

proof fn lemma_balance_absent(s: Seq<Balance>, owner: Pubkey)
    requires
        forall|i: int| 0 <= i < s.len() ==> (#[trigger] s[i]).owner != owner,
    ensures
        balance_in(s, owner) == 0,
{
}

proof fn lemma_balance_update(s: Seq<Balance>, i: int, b: Balance)
    requires
        unique_owners(s),
        0 <= i < s.len(),
        s[i].owner == b.owner,
    ensures
        unique_owners(s.update(i, b)),
        balance_in(s.update(i, b), b.owner) == b.amount,
        forall|w: Pubkey| w != b.owner ==> balance_in(s.update(i, b), w) == balance_in(s, w),
{
    let t = s.update(i, b);
    assert forall|p: int, q: int|
        0 <= p < t.len() && 0 <= q < t.len() && p != q implies (#[trigger] t[p]).owner != (
    #[trigger] t[q]).owner by {
        assert(s[p].owner != s[q].owner);
    }
    lemma_balance_at(t, i, b.owner);
    assert forall|w: Pubkey| w != b.owner implies balance_in(t, w) == balance_in(s, w) by {
        if owner_present(s, w) {
            let k = choose|k: int| 0 <= k < s.len() && (#[trigger] s[k]).owner == w;
            assert(k != i);
            assert(t[k].owner == w);
            lemma_balance_at(s, k, w);
            lemma_balance_at(t, k, w);
        } else {
            assert forall|k: int| 0 <= k < t.len() implies (#[trigger] t[k]).owner != w by {
                if k != i {
                    assert(s[k].owner != w);
                }
            }
            lemma_balance_absent(s, w);
            lemma_balance_absent(t, w);
        }
    }
}

proof fn lemma_balance_push(s: Seq<Balance>, b: Balance)
    requires
        unique_owners(s),
        forall|i: int| 0 <= i < s.len() ==> (#[trigger] s[i]).owner != b.owner,
    ensures
        unique_owners(s.push(b)),
        balance_in(s.push(b), b.owner) == b.amount,
        forall|w: Pubkey| w != b.owner ==> balance_in(s.push(b), w) == balance_in(s, w),
{
    let t = s.push(b);
    assert forall|p: int, q: int|
        0 <= p < t.len() && 0 <= q < t.len() && p != q implies (#[trigger] t[p]).owner != (
    #[trigger] t[q]).owner by {
        if p < s.len() && q < s.len() {
            assert(s[p].owner != s[q].owner);
        }
    }
    lemma_balance_at(t, s.len() as int, b.owner);
    assert forall|w: Pubkey| w != b.owner implies balance_in(t, w) == balance_in(s, w) by {
        if owner_present(s, w) {
            let k = choose|k: int| 0 <= k < s.len() && (#[trigger] s[k]).owner == w;
            assert(t[k].owner == w);
            lemma_balance_at(s, k, w);
            lemma_balance_at(t, k, w);
        } else {
            assert forall|k: int| 0 <= k < t.len() implies (#[trigger] t[k]).owner != w by {
                if k < s.len() {
                    assert(s[k].owner != w);
                }
            }
            lemma_balance_absent(s, w);
            lemma_balance_absent(t, w);
        }
    }
}

proof fn lemma_claims_at(s: Seq<PlayerStats>, i: int, player: Pubkey)
    requires
        unique_players(s),
        0 <= i < s.len(),
        s[i].player == player,
    ensures
        claims_in(s, player) == s[i].cubes_removed,
{
    assert(player_present(s, player));
    let j = choose|j: int| 0 <= j < s.len() && (#[trigger] s[j]).player == player;
    assert(j == i);
}

proof fn lemma_claims_absent(s: Seq<PlayerStats>, player: Pubkey)
    requires
        forall|i: int| 0 <= i < s.len() ==> (#[trigger] s[i]).player != player,
    ensures
        claims_in(s, player) == 0,
{
}

proof fn lemma_claims_update(s: Seq<PlayerStats>, i: int, p: PlayerStats)
    requires
        unique_players(s),
        0 <= i < s.len(),
        s[i].player == p.player,
    ensures
        unique_players(s.update(i, p)),
        claims_in(s.update(i, p), p.player) == p.cubes_removed,
        forall|w: Pubkey| w != p.player ==> claims_in(s.update(i, p), w) == claims_in(s, w),
{
    let t = s.update(i, p);
    assert forall|a: int, q: int|
        0 <= a < t.len() && 0 <= q < t.len() && a != q implies (#[trigger] t[a]).player != (
    #[trigger] t[q]).player by {
        assert(s[a].player != s[q].player);
    }
    lemma_claims_at(t, i, p.player);
    assert forall|w: Pubkey| w != p.player implies claims_in(t, w) == claims_in(s, w) by {
        if player_present(s, w) {
            let k = choose|k: int| 0 <= k < s.len() && (#[trigger] s[k]).player == w;
            assert(k != i);
            assert(t[k].player == w);
            lemma_claims_at(s, k, w);
            lemma_claims_at(t, k, w);
        } else {
            assert forall|k: int| 0 <= k < t.len() implies (#[trigger] t[k]).player != w by {
                if k != i {
                    assert(s[k].player != w);
                }
            }
            lemma_claims_absent(s, w);
            lemma_claims_absent(t, w);
        }
    }
}

proof fn lemma_claims_push(s: Seq<PlayerStats>, p: PlayerStats)
    requires
        unique_players(s),
        forall|i: int| 0 <= i < s.len() ==> (#[trigger] s[i]).player != p.player,
    ensures
        unique_players(s.push(p)),
        claims_in(s.push(p), p.player) == p.cubes_removed,
        forall|w: Pubkey| w != p.player ==> claims_in(s.push(p), w) == claims_in(s, w),
{
    let t = s.push(p);
    assert forall|a: int, q: int|
        0 <= a < t.len() && 0 <= q < t.len() && a != q implies (#[trigger] t[a]).player != (
    #[trigger] t[q]).player by {
        if a < s.len() && q < s.len() {
            assert(s[a].player != s[q].player);
        }
    }
    lemma_claims_at(t, s.len() as int, p.player);
    assert forall|w: Pubkey| w != p.player implies claims_in(t, w) == claims_in(s, w) by {
        if player_present(s, w) {
            let k = choose|k: int| 0 <= k < s.len() && (#[trigger] s[k]).player == w;
            assert(t[k].player == w);
            lemma_claims_at(s, k, w);
            lemma_claims_at(t, k, w);
        } else {
            assert forall|k: int| 0 <= k < t.len() implies (#[trigger] t[k]).player != w by {
                if k < s.len() {
                    assert(s[k].player != w);
                }
            }
            lemma_claims_absent(s, w);
            lemma_claims_absent(t, w);
        }
    }
}

// ---------------------------------------------------------------------
// Exec lookups
// ---------------------------------------------------------------------

fn find_cube(cubes: &Vec<CubeRecord>, cube_id: &String) -> (r: Option<usize>)
    ensures
        match r {
            Some(i) => i < cubes@.len() && cubes@[i as int].cube_id@ == cube_id@,
            None => forall|j: int| 0 <= j < cubes@.len() ==> (#[trigger] cubes@[j]).cube_id@ != cube_id@,
        },
{
    let mut i: usize = 0;
    while i < cubes.len()
        invariant
            i <= cubes@.len(),
            forall|j: int| 0 <= j < i ==> (#[trigger] cubes@[j]).cube_id@ != cube_id@,
        decreases cubes@.len() - i,
    {
        if cubes[i].cube_id == *cube_id {
            return Some(i);
        }
        i = i + 1;
    }
    None
}

fn find_player(players: &Vec<PlayerStats>, player: Pubkey) -> (r: Option<usize>)
    ensures
        match r {
            Some(i) => i < players@.len() && players@[i as int].player == player,
            None => forall|j: int|
                0 <= j < players@.len() ==> (#[trigger] players@[j]).player != player,
        },
{
    let mut i: usize = 0;
    while i < players.len()
        invariant
            i <= players@.len(),
            forall|j: int| 0 <= j < i ==> (#[trigger] players@[j]).player != player,
        decreases players@.len() - i,
    {
        if players[i].player == player {
            return Some(i);
        }
        i = i + 1;
    }
    None
}

fn find_balance(balances: &Vec<Balance>, owner: Pubkey) -> (r: Option<usize>)
    ensures
        match r {
            Some(i) => i < balances@.len() && balances@[i as int].owner == owner,
            None => forall|j: int|
                0 <= j < balances@.len() ==> (#[trigger] balances@[j]).owner != owner,
        },
{
    let mut i: usize = 0;
    while i < balances.len()
        invariant
            i <= balances@.len(),
            forall|j: int| 0 <= j < i ==> (#[trigger] balances@[j]).owner != owner,
        decreases balances@.len() - i,
    {
        if balances[i].owner == owner {
            return Some(i);
        }
        i = i + 1;
    }
    None
}

// ---------------------------------------------------------------------
// The store
// ---------------------------------------------------------------------

/// The whole system's state: records, balances, treasury and the
/// notification log.
pub struct Ledger {
    pub game_state: Option<GameState>,
    pub cubes: Vec<CubeRecord>,
    pub players: Vec<PlayerStats>,
    pub balances: Vec<Balance>,
    pub treasury_balance: u64,
    pub events: Vec<CubeRemovedEvent>,
}

impl Ledger {
    /// The configuration record exists (the system was initialized).
    pub open spec fn is_initialized(self) -> bool {
        self.game_state is Some
    }

    pub open spec fn spec_config(self) -> GameState {
        self.game_state->Some_0
    }

    pub open spec fn spec_price(self) -> u64 {
        self.spec_config().price_per_cube
    }

    pub open spec fn spec_total(self) -> u64 {
        self.spec_config().total_cubes_removed
    }

    pub open spec fn spec_authority(self) -> Pubkey {
        self.spec_config().authority
    }

    /// A claim record for this identifier is stored.
    pub open spec fn spec_has_cube(self, id: Seq<char>) -> bool {
        exists|i: int| 0 <= i < self.cubes@.len() && (#[trigger] self.cubes@[i]).cube_id@ == id
    }

    pub open spec fn spec_balance_of(self, owner: Pubkey) -> u64 {
        balance_in(self.balances@, owner)
    }

    pub open spec fn spec_claims_of(self, player: Pubkey) -> u64 {
        claims_in(self.players@, player)
    }

    /// Well-formedness the store keeps through every operation: records
    /// are keyed uniquely, every stored claim record is a committed claim
    /// within the identifier limit, the configuration's counter equals
    /// the number of committed claims and of emitted notifications, and
    /// before initialization nothing has been claimed or collected.
    pub open spec fn wf(self) -> bool {
        &&& forall|i: int, j: int|
            0 <= i < self.cubes@.len() && 0 <= j < self.cubes@.len() && i != j ==> (
            #[trigger] self.cubes@[i]).cube_id@ != (#[trigger] self.cubes@[j]).cube_id@
        &&& forall|i: int| 0 <= i < self.cubes@.len() ==> (#[trigger] self.cubes@[i]).is_removed
        &&& forall|i: int|
            0 <= i < self.cubes@.len() ==> (#[trigger] self.cubes@[i]).cube_id@.len()
                <= MAX_CUBE_ID_LEN
        &&& unique_owners(self.balances@)
        &&& unique_players(self.players@)
        &&& (self.is_initialized() ==> self.spec_total() == self.cubes@.len()
            && self.events@.len() == self.cubes@.len())
        &&& (!self.is_initialized() ==> self.cubes@.len() == 0 && self.players@.len() == 0
            && self.events@.len() == 0 && self.treasury_balance == 0)
    }

    /// An empty store: nothing initialized, nothing claimed, nothing held.
    pub fn new() -> (l: Ledger)
        ensures
            l.wf(),
            !l.is_initialized(),
            l.cubes@.len() == 0,
            l.players@.len() == 0,
            l.balances@.len() == 0,
            l.treasury_balance == 0,
            l.events@.len() == 0,
    {
        Ledger {
            game_state: None,
            cubes: Vec::new(),
            players: Vec::new(),
            balances: Vec::new(),
            treasury_balance: 0,
            events: Vec::new(),
        }
    }

    /// Host-side deposit of native currency into an identity's balance;
    /// how participants come to hold the funds they pay claims with.
    pub fn airdrop(&mut self, owner: Pubkey, amount: u64)
        requires
            old(self).wf(),
            old(self).spec_balance_of(owner) + amount <= u64::MAX,
        ensures
            final(self).wf(),
            final(self).spec_balance_of(owner) == old(self).spec_balance_of(owner) + amount,
            forall|w: Pubkey|
                w != owner ==> final(self).spec_balance_of(w) == old(self).spec_balance_of(w),
            final(self).game_state == old(self).game_state,
            final(self).cubes@ == old(self).cubes@,
            final(self).players@ == old(self).players@,
            final(self).treasury_balance == old(self).treasury_balance,
            final(self).events@ == old(self).events@,
    {
        match find_balance(&self.balances, owner) {
            Some(i) => {
                proof {
                    lemma_balance_at(self.balances@, i as int, owner);
                }
                let updated = Balance { owner, amount: self.balances[i].amount + amount };
                self.balances[i] = updated;
                proof {
                    lemma_balance_update(old(self).balances@, i as int, updated);
                }
            },
            None => {
                proof {
                    lemma_balance_absent(self.balances@, owner);
                }
                let entry = Balance { owner, amount };
                self.balances.push(entry);
                proof {
                    lemma_balance_push(old(self).balances@, entry);
                }
            },
        }
    }

    /// Create the configuration record: callable at most once. A second
    /// call finds the record in place and is refused with
    /// `DuplicateInitialization`, changing nothing.
    pub fn initialize(&mut self, authority: Pubkey, price_per_cube: u64, bump: u8) -> (r: Result<
        (),
        CubeGameError,
    >)
        requires
            old(self).wf(),
        ensures
            final(self).wf(),
            old(self).is_initialized() ==> r == Err::<(), CubeGameError>(
                CubeGameError::DuplicateInitialization,
            ) && *final(self) == *old(self),
            !old(self).is_initialized() ==> ({
                &&& r == Ok::<(), CubeGameError>(())
                &&& final(self).game_state == Some(
                    GameState { authority, price_per_cube, total_cubes_removed: 0, bump },
                )
                &&& final(self).cubes@ == old(self).cubes@
                &&& final(self).players@ == old(self).players@
                &&& final(self).balances@ == old(self).balances@
                &&& final(self).treasury_balance == old(self).treasury_balance
                &&& final(self).events@ == old(self).events@
            }),
    {
        if self.game_state.is_some() {
            return Err(CubeGameError::DuplicateInitialization);
        }
        let mut ctx = ops::Initialize {
            game_state: GameState {
                authority: Pubkey::zeroed(),
                price_per_cube: 0,
                total_cubes_removed: 0,
                bump: 0,
            },
            authority,
            bump,
        };
        ops::initialize(&mut ctx, price_per_cube)?;
        self.game_state = Some(ctx.game_state);
        Ok(())
    }

    /// Claim a cube for `player`, paying the current price into the
    /// treasury; `now` is the host clock's reading for this transaction.
    /// All-or-nothing: a refused claim leaves the store untouched.
    pub fn remove_cube(&mut self, cube_id: String, player: Pubkey, now: i64) -> (r: Result<
        (),
        CubeGameError,
    >)
        requires
            old(self).wf(),
            old(self).is_initialized(),
            cube_id@.len() <= MAX_CUBE_ID_LEN,
            (!old(self).spec_has_cube(cube_id@) && old(self).spec_balance_of(player) >= old(
                self,
            ).spec_price()) ==> ({
                &&& old(self).spec_total() < u64::MAX
                &&& old(self).spec_claims_of(player) < u64::MAX
                &&& old(self).treasury_balance + old(self).spec_price() <= u64::MAX
            }),
        ensures
            final(self).wf(),
            final(self).is_initialized(),
            r == Ok::<(), CubeGameError>(()) <==> (!old(self).spec_has_cube(cube_id@) && old(
                self,
            ).spec_balance_of(player) >= old(self).spec_price()),
            r is Err ==> *final(self) == *old(self),
            old(self).spec_has_cube(cube_id@) ==> r == Err::<(), CubeGameError>(
                CubeGameError::CubeAlreadyRemoved,
            ),
            (!old(self).spec_has_cube(cube_id@) && old(self).spec_balance_of(player) < old(
                self,
            ).spec_price()) ==> r == Err::<(), CubeGameError>(CubeGameError::InsufficientFunds),
            r is Ok ==> final(self).spec_authority() == old(self).spec_authority(),
            r is Ok ==> final(self).spec_price() == old(self).spec_price(),
            r is Ok ==> final(self).spec_total() == old(self).spec_total() + 1,
            r is Ok ==> final(self).treasury_balance == old(self).treasury_balance + old(
                self,
            ).spec_price(),
            r is Ok ==> final(self).spec_balance_of(player) == old(self).spec_balance_of(player)
                - old(self).spec_price(),
            r is Ok ==> forall|w: Pubkey|
                w != player ==> final(self).spec_balance_of(w) == old(self).spec_balance_of(w),
            r is Ok ==> final(self).spec_claims_of(player) == old(self).spec_claims_of(player) + 1,
            r is Ok ==> forall|w: Pubkey|
                w != player ==> final(self).spec_claims_of(w) == old(self).spec_claims_of(w),
            r is Ok ==> final(self).cubes@.len() == old(self).cubes@.len() + 1,
            r is Ok ==> forall|j: int|
                0 <= j < old(self).cubes@.len() ==> final(self).cubes@[j] == old(self).cubes@[j],
            r is Ok ==> final(self).cubes@.last().cube_id@ == cube_id@,
            r is Ok ==> final(self).cubes@.last().is_removed,
            r is Ok ==> final(self).cubes@.last().removed_by == player,
            r is Ok ==> final(self).cubes@.last().removed_at == now,
            r is Ok ==> final(self).spec_has_cube(cube_id@),
            r is Ok ==> final(self).events@.len() == old(self).events@.len() + 1,
            r is Ok ==> forall|j: int|
                0 <= j < old(self).events@.len() ==> final(self).events@[j] == old(self).events@[j],
            r is Ok ==> final(self).events@.last().cube_id@ == cube_id@,
            r is Ok ==> final(self).events@.last().player == player,
            r is Ok ==> final(self).events@.last().total_removed == old(self).spec_total() + 1,
            r is Ok ==> final(self).events@.last().timestamp == now,
    {
        let cube_idx = find_cube(&self.cubes, &cube_id);
        let already = match cube_idx {
            Some(i) => self.cubes[i].is_removed,
            None => false,
        };
        // The decision goes by the claim flag: a stored record whose flag
        // is set refuses the claim. (Every stored record is a committed
        // claim, so absence of the record is the only other possibility.)
        if already {
            return Err(CubeGameError::CubeAlreadyRemoved);
        }
        proof {
            match cube_idx {
                Some(i) => {
                    assert(self.cubes@[i as int].is_removed);
                },
                None => {},
            }
            assert(cube_idx is None);
            assert(!self.spec_has_cube(cube_id@));
        }
        let player_idx = find_player(&self.players, player);
        let balance_idx = find_balance(&self.balances, player);
        let player_balance = match balance_idx {
            Some(i) => self.balances[i].amount,
            None => 0,
        };
        proof {
            match balance_idx {
                Some(i) => lemma_balance_at(self.balances@, i as int, player),
                None => lemma_balance_absent(self.balances@, player),
            }
            assert(player_balance == self.spec_balance_of(player));
        }
        let stats = match player_idx {
            Some(i) => self.players[i],
            None => PlayerStats { player, cubes_removed: 0 },
        };
        proof {
            match player_idx {
                Some(i) => lemma_claims_at(self.players@, i as int, player),
                None => lemma_claims_absent(self.players@, player),
            }
            assert(stats.cubes_removed == self.spec_claims_of(player));
        }
        let g = self.game_state.unwrap();
        let mut ctx = ops::RemoveCube {
            game_state: g,
            cube_record: CubeRecord {
                is_removed: false,
                removed_by: Pubkey::zeroed(),
                removed_at: 0,
                cube_id: String::new(),
            },
            player_stats: stats,
            treasury_balance: self.treasury_balance,
            player,
            player_balance,
        };
        match ops::remove_cube(&mut ctx, cube_id, now) {
            Err(e) => Err(e),
            Ok(ev) => {
                self.game_state = Some(ctx.game_state);
                self.treasury_balance = ctx.treasury_balance;
                self.cubes.push(ctx.cube_record);
                match player_idx {
                    Some(i) => {
                        self.players[i] = ctx.player_stats;
                        proof {
                            lemma_claims_update(old(self).players@, i as int, ctx.player_stats);
                        }
                    },
                    None => {
                        self.players.push(ctx.player_stats);
                        proof {
                            lemma_claims_push(old(self).players@, ctx.player_stats);
                        }
                    },
                }
                let paid = Balance { owner: player, amount: ctx.player_balance };
                match balance_idx {
                    Some(i) => {
                        self.balances[i] = paid;
                        proof {
                            lemma_balance_update(old(self).balances@, i as int, paid);
                        }
                    },
                    None => {
                        self.balances.push(paid);
                        proof {
                            lemma_balance_push(old(self).balances@, paid);
                        }
                    },
                }
                self.events.push(ev);
                proof {
                    assert(self.cubes@[self.cubes@.len() - 1].cube_id@ == cube_id@);
                    assert(self.spec_has_cube(cube_id@));
                }
                Ok(())
            },
        }
    }

    /// Overwrite the fee per claim; authority only, any value accepted.
    pub fn set_price(&mut self, caller: Pubkey, new_price: u64) -> (r: Result<(), CubeGameError>)
        requires
            old(self).wf(),
            old(self).is_initialized(),
        ensures
            final(self).wf(),
            caller != old(self).spec_authority() ==> r == Err::<(), CubeGameError>(
                CubeGameError::Unauthorized,
            ) && *final(self) == *old(self),
            caller == old(self).spec_authority() ==> ({
                &&& r == Ok::<(), CubeGameError>(())
                &&& final(self).game_state == Some(
                    GameState { price_per_cube: new_price, ..old(self).spec_config() },
                )
                &&& final(self).cubes@ == old(self).cubes@
                &&& final(self).players@ == old(self).players@
                &&& final(self).balances@ == old(self).balances@
                &&& final(self).treasury_balance == old(self).treasury_balance
                &&& final(self).events@ == old(self).events@
            }),
    {
        let g = self.game_state.unwrap();
        let mut ctx = ops::SetPrice { game_state: g, authority: caller };
        match ops::set_price(&mut ctx, new_price) {
            Err(e) => Err(e),
            Ok(()) => {
                self.game_state = Some(ctx.game_state);
                Ok(())
            },
        }
    }

    /// Move collected funds from the treasury to the authority; authority
    /// only, and never past what the treasury holds.
    pub fn withdraw(&mut self, caller: Pubkey, amount: u64) -> (r: Result<(), CubeGameError>)
        requires
            old(self).wf(),
            old(self).is_initialized(),
            (caller == old(self).spec_authority() && amount <= old(self).treasury_balance) ==> old(
                self,
            ).spec_balance_of(caller) + amount <= u64::MAX,
        ensures
            final(self).wf(),
            r == Ok::<(), CubeGameError>(()) <==> (caller == old(self).spec_authority() && amount
                <= old(self).treasury_balance),
            r is Err ==> *final(self) == *old(self),
            caller != old(self).spec_authority() ==> r == Err::<(), CubeGameError>(
                CubeGameError::Unauthorized,
            ),
            (caller == old(self).spec_authority() && amount > old(self).treasury_balance) ==> r
                == Err::<(), CubeGameError>(CubeGameError::InsufficientFunds),
            r is Ok ==> ({
                &&& final(self).treasury_balance == old(self).treasury_balance - amount
                &&& final(self).spec_balance_of(caller) == old(self).spec_balance_of(caller)
                    + amount
                &&& forall|w: Pubkey|
                    w != caller ==> final(self).spec_balance_of(w) == old(self).spec_balance_of(w)
                &&& final(self).game_state == old(self).game_state
                &&& final(self).cubes@ == old(self).cubes@
                &&& final(self).players@ == old(self).players@
                &&& final(self).events@ == old(self).events@
            }),
    {
        let balance_idx = find_balance(&self.balances, caller);
        let authority_balance = match balance_idx {
            Some(i) => self.balances[i].amount,
            None => 0,
        };
        proof {
            match balance_idx {
                Some(i) => lemma_balance_at(self.balances@, i as int, caller),
                None => lemma_balance_absent(self.balances@, caller),
            }
            assert(authority_balance == self.spec_balance_of(caller));
        }
        let g = self.game_state.unwrap();
        let mut ctx = ops::Withdraw {
            game_state: g,
            treasury_balance: self.treasury_balance,
            authority: caller,
            authority_balance,
        };
        match ops::withdraw(&mut ctx, amount) {
            Err(e) => Err(e),
            Ok(()) => {
                self.treasury_balance = ctx.treasury_balance;
                let paid = Balance { owner: caller, amount: ctx.authority_balance };
                match balance_idx {
                    Some(i) => {
                        self.balances[i] = paid;
                        proof {
                            lemma_balance_update(old(self).balances@, i as int, paid);
                        }
                    },
                    None => {
                        self.balances.push(paid);
                        proof {
                            lemma_balance_push(old(self).balances@, paid);
                        }
                    },
                }
                Ok(())
            },
        }
    }

    // -----------------------------------------------------------------
    // Read-only views of the store
    // -----------------------------------------------------------------

    pub fn initialized(&self) -> (r: bool)
        ensures
            r == self.is_initialized(),
    {
        self.game_state.is_some()
    }

    pub fn price(&self) -> (r: u64)
        requires
            self.is_initialized(),
        ensures
            r == self.spec_price(),
    {
        self.game_state.unwrap().price_per_cube
    }

    pub fn total_cubes_removed(&self) -> (r: u64)
        requires
            self.is_initialized(),
        ensures
            r == self.spec_total(),
    {
        self.game_state.unwrap().total_cubes_removed
    }

    pub fn authority(&self) -> (r: Pubkey)
        requires
            self.is_initialized(),
        ensures
            r == self.spec_authority(),
    {
        self.game_state.unwrap().authority
    }

    pub fn balance_of(&self, owner: Pubkey) -> (r: u64)
        requires
            self.wf(),
        ensures
            r == self.spec_balance_of(owner),
    {
        match find_balance(&self.balances, owner) {
            Some(i) => {
                proof {
                    lemma_balance_at(self.balances@, i as int, owner);
                }
                self.balances[i].amount
            },
            None => {
                proof {
                    lemma_balance_absent(self.balances@, owner);
                }
                0
            },
        }
    }

    pub fn claims_of(&self, player: Pubkey) -> (r: u64)
        requires
            self.wf(),
        ensures
            r == self.spec_claims_of(player),
    {
        match find_player(&self.players, player) {
            Some(i) => {
                proof {
                    lemma_claims_at(self.players@, i as int, player);
                }
                self.players[i].cubes_removed
            },
            None => {
                proof {
                    lemma_claims_absent(self.players@, player);
                }
                0
            },
        }
    }

    /// Whether a claim for this identifier has been committed.
    pub fn cube_removed(&self, cube_id: &String) -> (r: bool)
        requires
            self.wf(),
        ensures
            r == self.spec_has_cube(cube_id@),
    {
        match find_cube(&self.cubes, cube_id) {
            Some(_) => true,
            None => {
                proof {
                    assert(!self.spec_has_cube(cube_id@));
                }
                false
            },
        }
    }
}

} // verus!
