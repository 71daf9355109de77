use pig_farm::frame::frame;
use pig_farm::input::{InputSnapshot, SpawnEdge};
use pig_farm::lifetime::pig_lifetime;
use pig_farm::movement::character_movement;
use pig_farm::notice::Notice;
use pig_farm::spawn::spawn_pig;
use pig_farm::world::{Money, Pig, Player, World, PIG_LIFETIME_MS, PLAYER_SPEED, SPAWN_COST_CENTS,
    START_BALANCE_CENTS};

fn no_input() -> InputSnapshot {
    InputSnapshot { up: false, down: false, left: false, right: false, spawn_just_pressed: false }
}

#[test]
fn new_world_matches_session_start() {
    let w = World::new();
    assert_eq!(w.players.len(), 1);
    assert_eq!(w.players[0], Player { x: 0, y: 0, speed: PLAYER_SPEED });
    assert_eq!(w.pigs.len(), 0);
    assert_eq!(w.balance_cents(), START_BALANCE_CENTS);
    assert_eq!(w.money, Money(10000));
}

#[test]
fn idle_input_leaves_player_unchanged() {
    let mut w = World::new();
    w.players[0].x = 123;
    w.players[0].y = -456;
    character_movement(&mut w, &no_input(), 16);
    assert_eq!(w.players[0].x, 123);
    assert_eq!(w.players[0].y, -456);
}

#[test]
fn diagonal_movement_is_not_normalized() {
    let mut w = World::new();
    let input = InputSnapshot { up: true, right: true, ..no_input() };
    character_movement(&mut w, &input, 100);
    // 300 units/s for 100 ms: 30000 milliunits on each axis.
    assert_eq!(w.players[0].x, 30000);
    assert_eq!(w.players[0].y, 30000);
}

#[test]
fn down_and_left_move_negative() {
    let mut w = World::new();
    let input = InputSnapshot { down: true, left: true, ..no_input() };
    character_movement(&mut w, &input, 10);
    assert_eq!(w.players[0].x, -3000);
    assert_eq!(w.players[0].y, -3000);
}

#[test]
fn opposite_keys_cancel() {
    let mut w = World::new();
    let input = InputSnapshot { up: true, down: true, left: true, right: true, ..no_input() };
    character_movement(&mut w, &input, 50);
    assert_eq!(w.players[0].x, 0);
    assert_eq!(w.players[0].y, 0);
}

#[test]
fn spawn_debits_cost_and_places_pig_at_player() {
    let mut w = World::new();
    w.players[0].x = 77;
    w.players[0].y = -8;
    let notice = spawn_pig(&mut w, true);
    assert_eq!(notice, Some(Notice::Spawned { new_balance_cents: 9000 }));
    assert_eq!(w.balance_cents(), 9000);
    assert_eq!(w.pigs.len(), 1);
    assert_eq!(w.pigs[0], Pig { x: 77, y: -8, remaining_ms: PIG_LIFETIME_MS });
}

#[test]
fn spawn_without_trigger_is_silent_no_op() {
    let mut w = World::new();
    let notice = spawn_pig(&mut w, false);
    assert_eq!(notice, None);
    assert_eq!(w.balance_cents(), START_BALANCE_CENTS);
    assert_eq!(w.pigs.len(), 0);
}

#[test]
fn spawn_with_insufficient_balance_is_a_no_op() {
    // Balance 5.00: the trigger fires, nothing is created, nothing debited.
    let mut w = World::new();
    w.money = Money(500);
    let notice = spawn_pig(&mut w, true);
    assert_eq!(notice, Some(Notice::InsufficientFunds { balance_cents: 500 }));
    assert_eq!(w.balance_cents(), 500);
    assert_eq!(w.pigs.len(), 0);
}

#[test]
fn spawn_with_no_player_reports_error_without_mutation() {
    let mut w = World::new();
    w.players.clear();
    let notice = spawn_pig(&mut w, true);
    assert_eq!(notice, Some(Notice::NoPlayer));
    assert_eq!(w.balance_cents(), START_BALANCE_CENTS);
    assert_eq!(w.pigs.len(), 0);
}

#[test]
fn spawn_with_two_players_reports_ambiguity_without_mutation() {
    let mut w = World::new();
    w.players.push(Player { x: 5, y: 5, speed: PLAYER_SPEED });
    let notice = spawn_pig(&mut w, true);
    assert_eq!(notice, Some(Notice::AmbiguousPlayer));
    assert_eq!(w.balance_cents(), START_BALANCE_CENTS);
    assert_eq!(w.pigs.len(), 0);
}

#[test]
fn spawn_with_balance_exactly_at_cost_succeeds_to_zero() {
    let mut w = World::new();
    w.money = Money(SPAWN_COST_CENTS);
    let notice = spawn_pig(&mut w, true);
    assert_eq!(notice, Some(Notice::Spawned { new_balance_cents: 0 }));
    assert_eq!(w.balance_cents(), 0);
    let again = spawn_pig(&mut w, true);
    assert_eq!(again, Some(Notice::InsufficientFunds { balance_cents: 0 }));
    assert_eq!(w.balance_cents(), 0);
    assert_eq!(w.pigs.len(), 1);
}

#[test]
fn pig_survives_until_countdown_runs_out() {
    let mut w = World::new();
    spawn_pig(&mut w, true);
    let notices = pig_lifetime(&mut w, 1999);
    assert!(notices.is_empty());
    assert_eq!(w.pigs.len(), 1);
    assert_eq!(w.pigs[0].remaining_ms, 1);
    assert_eq!(w.balance_cents(), 9000);
}

#[test]
fn pig_expires_exactly_when_countdown_is_met() {
    let mut w = World::new();
    spawn_pig(&mut w, true);
    let notices = pig_lifetime(&mut w, PIG_LIFETIME_MS);
    assert_eq!(notices, vec![Notice::PigSold { new_balance_cents: 10500 }]);
    assert_eq!(w.pigs.len(), 0);
    assert_eq!(w.balance_cents(), 10500);
}

#[test]
fn scenario_spawn_then_expiry_after_two_and_a_half_seconds() {
    // Balance 100.00, one spawn trigger: balance 90.00, one pig with a full
    // 2.0 s countdown. After 2.5 s of frames the pig is gone and the balance
    // is 105.00.
    let mut w = World::new();
    let notice = spawn_pig(&mut w, true);
    assert_eq!(notice, Some(Notice::Spawned { new_balance_cents: 9000 }));
    assert_eq!(w.balance_cents(), 9000);
    assert_eq!(w.pigs.len(), 1);
    assert_eq!(w.pigs[0].remaining_ms, 2000);
    let first = pig_lifetime(&mut w, 1000);
    assert!(first.is_empty());
    let second = pig_lifetime(&mut w, 1500);
    assert_eq!(second, vec![Notice::PigSold { new_balance_cents: 10500 }]);
    assert_eq!(w.pigs.len(), 0);
    assert_eq!(w.balance_cents(), 10500);
}

#[test]
fn several_pigs_can_expire_in_one_frame() {
    let mut w = World::new();
    w.pigs.push(Pig { x: 0, y: 0, remaining_ms: 100 });
    w.pigs.push(Pig { x: 1, y: 1, remaining_ms: 900 });
    w.pigs.push(Pig { x: 2, y: 2, remaining_ms: 150 });
    let notices = pig_lifetime(&mut w, 200);
    assert_eq!(
        notices,
        vec![
            Notice::PigSold { new_balance_cents: 11500 },
            Notice::PigSold { new_balance_cents: 13000 },
        ]
    );
    assert_eq!(w.pigs.len(), 1);
    assert_eq!(w.pigs[0], Pig { x: 1, y: 1, remaining_ms: 700 });
    assert_eq!(w.balance_cents(), 13000);
}

#[test]
fn frame_runs_movement_spawn_and_lifetime_in_order() {
    let mut w = World::new();
    let input = InputSnapshot { right: true, spawn_just_pressed: true, ..no_input() };
    let notices = frame(&mut w, &input, 100);
    // Movement ran first: the pig sits at the moved position.
    assert_eq!(w.players[0].x, 30000);
    assert_eq!(w.pigs.len(), 1);
    assert_eq!(w.pigs[0].x, 30000);
    // The pig spawned this frame is first ticked next frame.
    assert_eq!(w.pigs[0].remaining_ms, PIG_LIFETIME_MS);
    assert_eq!(notices, vec![Notice::Spawned { new_balance_cents: 9000 }]);
    assert_eq!(w.balance_cents(), 9000);
}

#[test]
fn frame_emits_spawn_notice_before_sale_notices() {
    let mut w = World::new();
    w.pigs.push(Pig { x: 3, y: 4, remaining_ms: 50 });
    let input = InputSnapshot { spawn_just_pressed: true, ..no_input() };
    let notices = frame(&mut w, &input, 100);
    assert_eq!(
        notices,
        vec![
            Notice::Spawned { new_balance_cents: 9000 },
            Notice::PigSold { new_balance_cents: 10500 },
        ]
    );
    assert_eq!(w.balance_cents(), 10500);
    assert_eq!(w.pigs.len(), 1);
    assert_eq!(w.pigs[0].remaining_ms, PIG_LIFETIME_MS);
}

#[test]
fn balance_never_goes_negative_over_many_frames() {
    let mut w = World::new();
    let spawn = InputSnapshot { spawn_just_pressed: true, ..no_input() };
    for _ in 0..500 {
        frame(&mut w, &spawn, 7);
        assert!(w.balance_cents() >= 0);
    }
}

#[test]
fn frame_with_insufficient_balance_emits_notice_and_changes_nothing() {
    let mut w = World::new();
    w.money = Money(500);
    let input = InputSnapshot { spawn_just_pressed: true, ..no_input() };
    let notices = frame(&mut w, &input, 16);
    assert_eq!(notices, vec![Notice::InsufficientFunds { balance_cents: 500 }]);
    assert_eq!(w.balance_cents(), 500);
    assert_eq!(w.pigs.len(), 0);
}

#[test]
fn frame_with_no_player_emits_error_and_changes_nothing() {
    let mut w = World::new();
    w.players.clear();
    let input = InputSnapshot { spawn_just_pressed: true, ..no_input() };
    let notices = frame(&mut w, &input, 16);
    assert_eq!(notices, vec![Notice::NoPlayer]);
    assert_eq!(w.balance_cents(), START_BALANCE_CENTS);
    assert_eq!(w.pigs.len(), 0);
    assert_eq!(w.players.len(), 0);
}

#[test]
fn rising_edge_fires_once_per_discrete_press() {
    let mut edge = SpawnEdge::new();
    assert!(edge.rising_edge(true));
    assert!(!edge.rising_edge(true));
    assert!(!edge.rising_edge(true));
    assert!(!edge.rising_edge(false));
    assert!(edge.rising_edge(true));
}
