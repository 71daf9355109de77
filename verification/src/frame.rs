//! One frame of the update cycle: movement, then spawn, then lifetime, in
//! that fixed order. A pig spawned this frame joins the world at the frame
//! boundary and is first ticked in the next frame; its debit, though, is
//! visible immediately.

use vstd::prelude::*;
use crate::input::InputSnapshot;
use crate::lifetime::{expired_count, lifetime_fits, sold_notices, survivors, tick_pigs};
use crate::movement::{character_movement, movement_fits, movement_model};
use crate::notice::Notice;
use crate::spawn::{spawn_model, spawn_notice, spawn_pig};
use crate::world::{World, WorldModel, PIG_REWARD_CENTS};

verus! {

/// The world after one whole frame: every player moved, a pig bought on an
/// allowed trigger, the pigs that began the frame ticked and the expired ones
/// removed with one reward credited per removal.
pub open spec fn frame_model(m: WorldModel, input: InputSnapshot, dt_ms: u64) -> WorldModel {
    let moved = movement_model(m, input, dt_ms);
    let sp = spawn_model(moved, input.spawn_just_pressed);
    WorldModel {
        players: moved.players,
        pigs: survivors(m.pigs, dt_ms) + sp.pigs.skip(m.pigs.len() as int),
        balance: sp.balance + PIG_REWARD_CENTS * expired_count(m.pigs, dt_ms),
    }
}

/// The notices one frame emits: the spawn system's notice, if its trigger
/// fired, followed by one sale notice per pig removed.
pub open spec fn frame_notices(m: WorldModel, input: InputSnapshot, dt_ms: u64) -> Seq<Notice> {
    let moved = movement_model(m, input, dt_ms);
    let sp = spawn_model(moved, input.spawn_just_pressed);
    let head = match spawn_notice(moved, input.spawn_just_pressed) {
        Some(n) => seq![n],
        None => Seq::empty(),
    };
    head + sold_notices(sp.balance, expired_count(m.pigs, dt_ms))
}

/// Machine limits for one frame: displacements and positions fit the position
/// type, and the frame's credits keep the balance in range.
pub open spec fn frame_fits(m: WorldModel, input: InputSnapshot, dt_ms: u64) -> bool {
    &&& movement_fits(m, dt_ms)
    &&& lifetime_fits(
        spawn_model(movement_model(m, input, dt_ms), input.spawn_just_pressed),
        m.pigs.len() as int,
    )
}

/// Runs one frame: the movement, spawn and lifetime systems, in that order,
/// on the elapsed time `dt_ms` (always positive) and the frame's input
/// snapshot. Returns the frame's notices in the order they arose.
pub fn frame(world: &mut World, input: &InputSnapshot, dt_ms: u64) -> (notices: Vec<Notice>)
    requires
        old(world)@.wf(),
        dt_ms > 0,
        frame_fits(old(world)@, *input, dt_ms),
    ensures
        final(world)@ == frame_model(old(world)@, *input, dt_ms),
        notices@ == frame_notices(old(world)@, *input, dt_ms),
        final(world)@.wf(),
{
    let ghost m0 = world@;
    let ghost moved = movement_model(m0, *input, dt_ms);
    let ghost sp = spawn_model(moved, input.spawn_just_pressed);
    character_movement(world, input, dt_ms);
    let count = world.pigs.len();
    proof {
        assert(count as int == m0.pigs.len());
    }
    let mut notices: Vec<Notice> = Vec::new();
    let spawned_notice = spawn_pig(world, input.spawn_just_pressed);
    if let Some(n) = spawned_notice {
        notices.push(n);
    }
    let ghost head = match spawn_notice(moved, input.spawn_just_pressed) {
        Some(n) => seq![n],
        None => Seq::<Notice>::empty(),
    };
    proof {
        assert(notices@ =~= head);
        assert(sp.pigs.take(count as int) =~= m0.pigs);
        assert(world@.pigs == sp.pigs);
        assert(world.pigs@.len() == world@.pigs.len());
    }
    let sold = tick_pigs(world, dt_ms, count);
    let mut j: usize = 0;
    while j < sold.len()
        invariant
            j <= sold.len(),
            notices@ == head + sold@.take(j as int),
        decreases sold.len() - j,
    {
        proof {
            assert(sold@.take(j as int + 1) =~= sold@.take(j as int).push(sold@[j as int]));
            assert(head + sold@.take(j as int).push(sold@[j as int])
                =~= (head + sold@.take(j as int)).push(sold@[j as int]));
        }
        notices.push(sold[j]);
        j = j + 1;
    }
    proof {
        assert(sold@.take(sold@.len() as int) =~= sold@);
        assert(world@ =~~= frame_model(m0, *input, dt_ms));
        assert(notices@ =~= frame_notices(m0, *input, dt_ms));
    }
    notices
}

} // verus!
