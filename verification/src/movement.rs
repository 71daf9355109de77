//! Movement system: each active directional key adds `±speed * dt` to the
//! player's position on its axis, independently — diagonal movement is
//! additive on both axes, not normalized.

use vstd::prelude::*;
use crate::input::InputSnapshot;
use crate::world::{Player, PlayerModel, World, WorldModel};

verus! {

/// Where one player ends up after a frame of `dt_ms` milliseconds under the
/// given input. A speed of `s` units per second covers `s` milliunits per
/// millisecond, so the displacement per active axis is `speed * dt_ms`
/// milliunits.
pub open spec fn moved_player(p: PlayerModel, input: InputSnapshot, dt_ms: u64) -> PlayerModel {
    let d = p.speed * dt_ms;
    PlayerModel {
        x: p.x + (if input.right { d } else { 0 }) - (if input.left { d } else { 0 }),
        y: p.y + (if input.up { d } else { 0 }) - (if input.down { d } else { 0 }),
        speed: p.speed,
    }
}

/// The whole world after the movement system ran: every player moved, pigs
/// and balance untouched.
pub open spec fn movement_model(m: WorldModel, input: InputSnapshot, dt_ms: u64) -> WorldModel {
    WorldModel { players: m.players.map_values(|p: PlayerModel| moved_player(p, input, dt_ms)), ..m }
}

/// Machine limit: one player's displacement and both candidate positions fit
/// in the position type.
pub open spec fn player_move_fits(p: PlayerModel, dt_ms: u64) -> bool {
    let d = p.speed * dt_ms;
    &&& d <= i64::MAX
    &&& i64::MIN <= p.x - d
    &&& p.x + d <= i64::MAX
    &&& i64::MIN <= p.y - d
    &&& p.y + d <= i64::MAX
}

/// Machine limit for the movement system as a whole.
pub open spec fn movement_fits(m: WorldModel, dt_ms: u64) -> bool {
    forall|i: int| 0 <= i < m.players.len() ==> player_move_fits(#[trigger] m.players[i], dt_ms)
}

/// Runs the movement system for one frame: every player is moved by the
/// active directional keys; nothing else changes. A frame with no active key
/// leaves every position as it was.
pub fn character_movement(world: &mut World, input: &InputSnapshot, dt_ms: u64)
    requires
        movement_fits(old(world)@, dt_ms),
    ensures
        final(world)@ == movement_model(old(world)@, *input, dt_ms),
{
    let ghost m0 = world@;
    let mut moved: Vec<Player> = Vec::new();
    let n = world.players.len();
    let mut i: usize = 0;
    while i < n
        invariant
            i <= n,
            n == world.players.len(),
            world.players@ == old(world).players@,
            world.pigs@ == old(world).pigs@,
            world.money == old(world).money,
            m0 == old(world)@,
            movement_fits(m0, dt_ms),
            moved@.len() == i,
            forall|j: int|
                0 <= j < i ==> (#[trigger] moved@[j])@ == moved_player(m0.players[j], *input, dt_ms),
        decreases n - i,
    {
        let p = world.players[i];
        proof {
            assert(m0.players[i as int] == p@);
            assert(player_move_fits(p@, dt_ms));
        }
        let d = (p.speed * dt_ms) as i64;
        let mut x = p.x;
        let mut y = p.y;
        if input.right {
            x = x + d;
        }
        if input.left {
            x = x - d;
        }
        if input.up {
            y = y + d;
        }
        if input.down {
            y = y - d;
        }
        let q = Player { x, y, speed: p.speed };
        proof {
            assert(q@ == moved_player(p@, *input, dt_ms));
        }
        moved.push(q);
        i = i + 1;
    }
    world.players = moved;
    proof {
        assert(world@ =~~= movement_model(old(world)@, *input, dt_ms));
    }
}

} // verus!
