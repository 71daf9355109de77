//! Spawn system: on the rising edge of the spawn trigger, and only with
//! exactly one player present and a sufficient balance, debits the spawn cost
//! and creates one pig at the player's position. The debit and the creation
//! happen together or not at all.

use vstd::prelude::*;
use crate::notice::Notice;
use crate::world::{Pig, PigModel, PlayerModel, World, WorldModel, PIG_LIFETIME_MS, SPAWN_COST_CENTS};

verus! {

/// The preconditions under which a trigger actually buys a pig.
pub open spec fn spawn_allowed(m: WorldModel) -> bool {
    m.players.len() == 1 && m.balance >= SPAWN_COST_CENTS
}

/// The pig a spawn creates: the player's position at that instant, with the
/// full countdown.
pub open spec fn new_pig(p: PlayerModel) -> PigModel {
    PigModel { x: p.x, y: p.y, remaining_ms: PIG_LIFETIME_MS as int }
}

/// The world after the spawn system ran: unchanged unless the trigger fired
/// and the spawn was allowed; then exactly one pig is appended and the cost
/// debited, atomically.
pub open spec fn spawn_model(m: WorldModel, just_pressed: bool) -> WorldModel {
    if just_pressed && spawn_allowed(m) {
        WorldModel {
            pigs: m.pigs.push(new_pig(m.players[0])),
            balance: m.balance - SPAWN_COST_CENTS,
            ..m
        }
    } else {
        m
    }
}

/// The notice the spawn system emits: none when the trigger did not fire,
/// else exactly one, naming the condition.
pub open spec fn spawn_notice(m: WorldModel, just_pressed: bool) -> Option<Notice> {
    if !just_pressed {
        None
    } else if m.players.len() == 0 {
        Some(Notice::NoPlayer)
    } else if m.players.len() > 1 {
        Some(Notice::AmbiguousPlayer)
    } else if m.balance < SPAWN_COST_CENTS {
        Some(Notice::InsufficientFunds { balance_cents: m.balance as i64 })
    } else {
        Some(Notice::Spawned { new_balance_cents: (m.balance - SPAWN_COST_CENTS) as i64 })
    }
}

/// Runs the spawn system for one frame. `just_pressed` is the rising edge of
/// the spawn trigger. Succeeds (buys a pig) if and only if the trigger fired,
/// exactly one player exists, and the balance covers the cost; any other
/// trigger is a no-op with the matching error or informational notice.
pub fn spawn_pig(world: &mut World, just_pressed: bool) -> (notice: Option<Notice>)
    requires
        old(world)@.wf(),
    ensures
        final(world)@ == spawn_model(old(world)@, just_pressed),
        notice == spawn_notice(old(world)@, just_pressed),
        final(world)@.wf(),
        notice is None <==> !just_pressed,
{
    if !just_pressed {
        return None;
    }
    if world.players.len() == 0 {
        return Some(Notice::NoPlayer);
    }
    if world.players.len() > 1 {
        return Some(Notice::AmbiguousPlayer);
    }
    let player = world.players[0];
    if world.money.0 >= SPAWN_COST_CENTS {
        world.money.0 = world.money.0 - SPAWN_COST_CENTS;
        world.pigs.push(Pig { x: player.x, y: player.y, remaining_ms: PIG_LIFETIME_MS });
        proof {
            assert(world@ =~~= spawn_model(old(world)@, just_pressed));
        }
        Some(Notice::Spawned { new_balance_cents: world.money.0 })
    } else {
        Some(Notice::InsufficientFunds { balance_cents: world.money.0 })
    }
}

} // verus!
