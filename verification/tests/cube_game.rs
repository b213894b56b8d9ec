use cube_game::ledger::Ledger;
use cube_game::ops;
use cube_game::state::CubeGameError;
use cube_game::state::CubeRecord;
use cube_game::state::GameState;
use cube_game::state::PlayerStats;
use cube_game::state::Pubkey;

fn key(value: u64) -> Pubkey {
    Pubkey { value }
}

#[test]
fn initialize_sets_config() {
    let mut l = Ledger::new();
    assert!(!l.initialized());
    let r = l.initialize(key(1), 100, 7);
    assert_eq!(r, Ok(()));
    assert!(l.initialized());
    assert_eq!(l.price(), 100);
    assert_eq!(l.total_cubes_removed(), 0);
    assert_eq!(l.authority(), key(1));
    assert_eq!(l.treasury_balance, 0);
}

#[test]
fn duplicate_initialization_is_refused() {
    let mut l = Ledger::new();
    assert_eq!(l.initialize(key(1), 100, 7), Ok(()));
    let r = l.initialize(key(9), 5, 3);
    assert_eq!(r, Err(CubeGameError::DuplicateInitialization));
    // The first configuration stands untouched.
    assert_eq!(l.price(), 100);
    assert_eq!(l.authority(), key(1));
}

#[test]
fn scenario_full_run() {
    let auth = key(1);
    let alice = key(2);
    let bob = key(3);
    let mut l = Ledger::new();
    assert_eq!(l.initialize(auth, 100, 255), Ok(()));
    l.airdrop(alice, 1_000);
    l.airdrop(bob, 1_000);

    // claim("cube-1") by Alice succeeds: Treasury += 100, stats go to 1.
    assert_eq!(l.remove_cube(String::from("cube-1"), alice, 10), Ok(()));
    assert_eq!(l.treasury_balance, 100);
    assert_eq!(l.balance_of(alice), 900);
    assert_eq!(l.claims_of(alice), 1);
    assert_eq!(l.total_cubes_removed(), 1);

    // claim("cube-1") by Bob fails, no state change.
    assert_eq!(
        l.remove_cube(String::from("cube-1"), bob, 11),
        Err(CubeGameError::CubeAlreadyRemoved)
    );
    assert_eq!(l.treasury_balance, 100);
    assert_eq!(l.balance_of(bob), 1_000);
    assert_eq!(l.claims_of(bob), 0);
    assert_eq!(l.total_cubes_removed(), 1);

    // reprice(50) by a non-authority fails with Unauthorized.
    assert_eq!(l.set_price(bob, 50), Err(CubeGameError::Unauthorized));
    assert_eq!(l.price(), 100);

    // reprice(50) by the authority succeeds.
    assert_eq!(l.set_price(auth, 50), Ok(()));
    assert_eq!(l.price(), 50);

    // claim("cube-2") by Alice charges 50.
    assert_eq!(l.remove_cube(String::from("cube-2"), alice, 12), Ok(()));
    assert_eq!(l.treasury_balance, 150);
    assert_eq!(l.balance_of(alice), 850);
    assert_eq!(l.claims_of(alice), 2);
    assert_eq!(l.total_cubes_removed(), 2);

    // withdraw(1000) by the authority fails: the balance is 150.
    assert_eq!(l.withdraw(auth, 1_000), Err(CubeGameError::InsufficientFunds));
    assert_eq!(l.treasury_balance, 150);

    // withdraw(150) by the authority succeeds, Treasury = 0.
    assert_eq!(l.withdraw(auth, 150), Ok(()));
    assert_eq!(l.treasury_balance, 0);
    assert_eq!(l.balance_of(auth), 150);
}

#[test]
fn double_claim_charges_once() {
    let auth = key(1);
    let alice = key(2);
    let mut l = Ledger::new();
    assert_eq!(l.initialize(auth, 25, 1), Ok(()));
    l.airdrop(alice, 100);
    assert_eq!(l.remove_cube(String::from("c"), alice, 5), Ok(()));
    let second = l.remove_cube(String::from("c"), alice, 6);
    assert_eq!(second, Err(CubeGameError::CubeAlreadyRemoved));
    // Exactly one price was collected, not two.
    assert_eq!(l.treasury_balance, 25);
    assert_eq!(l.balance_of(alice), 75);
    assert_eq!(l.claims_of(alice), 1);
    assert_eq!(l.total_cubes_removed(), 1);
}

#[test]
fn total_counts_only_committed_claims() {
    let auth = key(1);
    let alice = key(2);
    let bob = key(3);
    let poor = key(4);
    let mut l = Ledger::new();
    assert_eq!(l.initialize(auth, 10, 1), Ok(()));
    l.airdrop(alice, 100);
    l.airdrop(bob, 100);

    assert_eq!(l.remove_cube(String::from("a"), alice, 1), Ok(()));
    assert!(l.remove_cube(String::from("a"), bob, 2).is_err()); // refused
    assert_eq!(l.remove_cube(String::from("b"), bob, 3), Ok(()));
    assert!(l.remove_cube(String::from("c"), poor, 4).is_err()); // no funds
    assert_eq!(l.remove_cube(String::from("c"), alice, 5), Ok(()));

    // Three committed claims, three records, three notifications.
    assert_eq!(l.total_cubes_removed(), 3);
    assert_eq!(l.cubes.len(), 3);
    assert_eq!(l.events.len(), 3);
}

#[test]
fn reprice_by_non_authority_changes_nothing() {
    let mut l = Ledger::new();
    assert_eq!(l.initialize(key(1), 77, 1), Ok(()));
    assert_eq!(l.set_price(key(2), 5), Err(CubeGameError::Unauthorized));
    assert_eq!(l.price(), 77);
    assert_eq!(l.set_price(key(1), 5), Ok(()));
    assert_eq!(l.price(), 5);
}

#[test]
fn claim_charges_price_at_claim_time() {
    let auth = key(1);
    let alice = key(2);
    let mut l = Ledger::new();
    assert_eq!(l.initialize(auth, 100, 1), Ok(()));
    assert_eq!(l.set_price(auth, 60), Ok(()));
    l.airdrop(alice, 100);
    assert_eq!(l.remove_cube(String::from("x"), alice, 9), Ok(()));
    // The repriced 60 was charged, never the original 100.
    assert_eq!(l.treasury_balance, 60);
    assert_eq!(l.balance_of(alice), 40);
}

#[test]
fn withdraw_over_balance_fails_closed() {
    let auth = key(1);
    let alice = key(2);
    let mut l = Ledger::new();
    assert_eq!(l.initialize(auth, 40, 1), Ok(()));
    l.airdrop(alice, 40);
    assert_eq!(l.remove_cube(String::from("q"), alice, 2), Ok(()));
    assert_eq!(l.treasury_balance, 40);
    // One unit over the treasury: refused, nothing moves, no wrap.
    assert_eq!(l.withdraw(auth, 41), Err(CubeGameError::InsufficientFunds));
    assert_eq!(l.treasury_balance, 40);
    assert_eq!(l.balance_of(auth), 0);
    // The full balance exactly is fine.
    assert_eq!(l.withdraw(auth, 40), Ok(()));
    assert_eq!(l.treasury_balance, 0);
    assert_eq!(l.balance_of(auth), 40);
}

#[test]
fn withdraw_by_non_authority_is_refused() {
    let auth = key(1);
    let alice = key(2);
    let mut l = Ledger::new();
    assert_eq!(l.initialize(auth, 10, 1), Ok(()));
    l.airdrop(alice, 10);
    assert_eq!(l.remove_cube(String::from("z"), alice, 2), Ok(()));
    assert_eq!(l.withdraw(alice, 5), Err(CubeGameError::Unauthorized));
    assert_eq!(l.treasury_balance, 10);
    assert_eq!(l.balance_of(alice), 0);
}

#[test]
fn claim_without_funds_is_refused() {
    let auth = key(1);
    let poor = key(2);
    let mut l = Ledger::new();
    assert_eq!(l.initialize(auth, 10, 1), Ok(()));
    l.airdrop(poor, 9);
    assert_eq!(
        l.remove_cube(String::from("c"), poor, 1),
        Err(CubeGameError::InsufficientFunds)
    );
    assert_eq!(l.balance_of(poor), 9);
    assert_eq!(l.treasury_balance, 0);
    assert_eq!(l.total_cubes_removed(), 0);
    assert!(!l.cube_removed(&String::from("c")));
}

#[test]
fn zero_price_claim_is_free() {
    let auth = key(1);
    let broke = key(2);
    let mut l = Ledger::new();
    assert_eq!(l.initialize(auth, 0, 1), Ok(()));
    // No airdrop at all: a zero price needs no funds.
    assert_eq!(l.remove_cube(String::from("free"), broke, 3), Ok(()));
    assert_eq!(l.treasury_balance, 0);
    assert_eq!(l.balance_of(broke), 0);
    assert_eq!(l.claims_of(broke), 1);
    assert_eq!(l.total_cubes_removed(), 1);
}

#[test]
fn cube_id_at_length_limit() {
    let auth = key(1);
    let alice = key(2);
    let mut l = Ledger::new();
    assert_eq!(l.initialize(auth, 1, 1), Ok(()));
    l.airdrop(alice, 2);
    let long_id = "abcdefghijklmnopqrstuvwxyz012345"; // 32 characters
    assert_eq!(long_id.len(), 32);
    assert_eq!(l.remove_cube(String::from(long_id), alice, 4), Ok(()));
    assert!(l.cube_removed(&String::from(long_id)));
    // The empty identifier is a different cube.
    assert_eq!(l.remove_cube(String::new(), alice, 5), Ok(()));
    assert_eq!(l.total_cubes_removed(), 2);
}

#[test]
fn notifications_record_each_claim() {
    let auth = key(1);
    let alice = key(2);
    let mut l = Ledger::new();
    assert_eq!(l.initialize(auth, 5, 1), Ok(()));
    l.airdrop(alice, 20);
    assert_eq!(l.remove_cube(String::from("one"), alice, 100), Ok(()));
    assert_eq!(l.remove_cube(String::from("two"), alice, 200), Ok(()));
    assert_eq!(l.events.len(), 2);
    assert_eq!(l.events[0].cube_id, "one");
    assert_eq!(l.events[0].player, alice);
    assert_eq!(l.events[0].total_removed, 1);
    assert_eq!(l.events[0].timestamp, 100);
    assert_eq!(l.events[1].cube_id, "two");
    assert_eq!(l.events[1].total_removed, 2);
    assert_eq!(l.events[1].timestamp, 200);
}

#[test]
fn claim_record_is_filled_in() {
    let auth = key(1);
    let alice = key(7);
    let mut l = Ledger::new();
    assert_eq!(l.initialize(auth, 3, 1), Ok(()));
    l.airdrop(alice, 3);
    assert_eq!(l.remove_cube(String::from("kept"), alice, 42), Ok(()));
    assert_eq!(l.cubes.len(), 1);
    let rec = &l.cubes[0];
    assert!(rec.is_removed);
    assert_eq!(rec.removed_by, alice);
    assert_eq!(rec.removed_at, 42);
    assert_eq!(rec.cube_id, "kept");
}

#[test]
fn ops_initialize_direct() {
    let mut ctx = ops::Initialize {
        game_state: GameState {
            authority: key(0),
            price_per_cube: 0,
            total_cubes_removed: 0,
            bump: 0,
        },
        authority: key(4),
        bump: 9,
    };
    assert_eq!(ops::initialize(&mut ctx, 123), Ok(()));
    assert_eq!(ctx.game_state.authority, key(4));
    assert_eq!(ctx.game_state.price_per_cube, 123);
    assert_eq!(ctx.game_state.total_cubes_removed, 0);
    assert_eq!(ctx.game_state.bump, 9);
}

#[test]
fn ops_remove_cube_direct() {
    let mut ctx = ops::RemoveCube {
        game_state: GameState {
            authority: key(1),
            price_per_cube: 30,
            total_cubes_removed: 4,
            bump: 1,
        },
        cube_record: CubeRecord {
            is_removed: false,
            removed_by: key(0),
            removed_at: 0,
            cube_id: String::new(),
        },
        player_stats: PlayerStats { player: key(2), cubes_removed: 8 },
        treasury_balance: 200,
        player: key(2),
        player_balance: 50,
    };
    let ev = ops::remove_cube(&mut ctx, String::from("c-9"), 77).unwrap();
    assert_eq!(ctx.player_balance, 20);
    assert_eq!(ctx.treasury_balance, 230);
    assert!(ctx.cube_record.is_removed);
    assert_eq!(ctx.cube_record.removed_by, key(2));
    assert_eq!(ctx.cube_record.removed_at, 77);
    assert_eq!(ctx.cube_record.cube_id, "c-9");
    assert_eq!(ctx.game_state.total_cubes_removed, 5);
    assert_eq!(ctx.player_stats.cubes_removed, 9);
    assert_eq!(ev.cube_id, "c-9");
    assert_eq!(ev.player, key(2));
    assert_eq!(ev.total_removed, 5);
    assert_eq!(ev.timestamp, 77);

    // A second run on the same records is refused and changes nothing.
    let again = ops::remove_cube(&mut ctx, String::from("c-9"), 78);
    assert_eq!(again.unwrap_err(), CubeGameError::CubeAlreadyRemoved);
    assert_eq!(ctx.treasury_balance, 230);
    assert_eq!(ctx.player_balance, 20);
    assert_eq!(ctx.game_state.total_cubes_removed, 5);
}

#[test]
fn ops_set_price_direct() {
    let game = GameState {
        authority: key(1),
        price_per_cube: 10,
        total_cubes_removed: 0,
        bump: 1,
    };
    let mut ctx = ops::SetPrice { game_state: game, authority: key(2) };
    assert_eq!(ops::set_price(&mut ctx, 99), Err(CubeGameError::Unauthorized));
    assert_eq!(ctx.game_state.price_per_cube, 10);
    let mut ctx2 = ops::SetPrice { game_state: game, authority: key(1) };
    assert_eq!(ops::set_price(&mut ctx2, 99), Ok(()));
    assert_eq!(ctx2.game_state.price_per_cube, 99);
}

#[test]
fn ops_withdraw_direct() {
    let game = GameState {
        authority: key(1),
        price_per_cube: 10,
        total_cubes_removed: 0,
        bump: 1,
    };
    let mut ctx = ops::Withdraw {
        game_state: game,
        treasury_balance: 70,
        authority: key(1),
        authority_balance: 5,
    };
    assert_eq!(ops::withdraw(&mut ctx, 71), Err(CubeGameError::InsufficientFunds));
    assert_eq!(ctx.treasury_balance, 70);
    assert_eq!(ctx.authority_balance, 5);
    assert_eq!(ops::withdraw(&mut ctx, 70), Ok(()));
    assert_eq!(ctx.treasury_balance, 0);
    assert_eq!(ctx.authority_balance, 75);

    let mut other = ops::Withdraw {
        game_state: game,
        treasury_balance: 70,
        authority: key(3),
        authority_balance: 0,
    };
    assert_eq!(ops::withdraw(&mut other, 1), Err(CubeGameError::Unauthorized));
    assert_eq!(other.treasury_balance, 70);
}

#[test]
fn airdrop_accumulates() {
    let mut l = Ledger::new();
    l.airdrop(key(5), 10);
    l.airdrop(key(5), 15);
    l.airdrop(key(6), 1);
    assert_eq!(l.balance_of(key(5)), 25);
    assert_eq!(l.balance_of(key(6)), 1);
    assert_eq!(l.balance_of(key(7)), 0);
}
