//! The crate-level laws: what holds of every frame and of every sequence of
//! frames, proved over the same model the systems' contracts use.

use vstd::prelude::*;
use crate::frame::frame_model;
use crate::input::InputSnapshot;
use crate::lifetime::{
    expired_count, expires, lemma_expired_count_bounds, lemma_survivors_len, ticked,
};
use crate::movement::{moved_player, movement_model};
use crate::spawn::{new_pig, spawn_allowed, spawn_model};
use crate::world::{PigModel, PlayerModel, WorldModel, PIG_LIFETIME_MS, PIG_REWARD_CENTS,
    SPAWN_COST_CENTS};

verus! {

/// The world after a whole sequence of frames, each with its input snapshot
/// and its elapsed time.
pub open spec fn run_frames(m: WorldModel, inputs: Seq<InputSnapshot>, dts: Seq<u64>) -> WorldModel
    decreases inputs.len(),
{
    if inputs.len() == 0 {
        m
    } else {
        run_frames(frame_model(m, inputs[0], dts[0]), inputs.skip(1), dts.skip(1))
    }
}

/// One frame never drives the balance negative: a spawn only ever executes
/// when the balance covers its cost, and expiries only credit.
pub proof fn lemma_frame_keeps_balance_nonneg(m: WorldModel, input: InputSnapshot, dt_ms: u64)
    requires
        m.balance >= 0,
    ensures
        frame_model(m, input, dt_ms).balance >= 0,
{
    lemma_expired_count_bounds(m.pigs, dt_ms);
}

/// Over every sequence of frames, from any world with a non-negative balance,
/// the balance stays non-negative.
pub proof fn lemma_balance_never_negative(m: WorldModel, inputs: Seq<InputSnapshot>, dts: Seq<u64>)
    requires
        m.balance >= 0,
        inputs.len() == dts.len(),
    ensures
        run_frames(m, inputs, dts).balance >= 0,
    decreases inputs.len(),
{
    if inputs.len() > 0 {
        lemma_frame_keeps_balance_nonneg(m, inputs[0], dts[0]);
        lemma_balance_never_negative(
            frame_model(m, inputs[0], dts[0]),
            inputs.skip(1),
            dts.skip(1),
        );
    }
}

/// An allowed spawn trigger — exactly one player, balance at least the cost —
/// creates exactly one pig, at the player's position at that instant with the
/// full countdown, and debits exactly the cost.
pub proof fn lemma_spawn_success(m: WorldModel, just_pressed: bool)
    requires
        just_pressed,
        m.players.len() == 1,
        m.balance >= SPAWN_COST_CENTS,
    ensures
        spawn_model(m, just_pressed).pigs == m.pigs.push(new_pig(m.players[0])),
        spawn_model(m, just_pressed).pigs.len() == m.pigs.len() + 1,
        spawn_model(m, just_pressed).balance == m.balance - SPAWN_COST_CENTS,
        spawn_model(m, just_pressed).pigs.last().x == m.players[0].x,
        spawn_model(m, just_pressed).pigs.last().y == m.players[0].y,
        spawn_model(m, just_pressed).pigs.last().remaining_ms == PIG_LIFETIME_MS as int,
        spawn_model(m, just_pressed).players == m.players,
{
}

/// Cumulative elapsed time over a sequence of frames.
pub open spec fn total_ms(dts: Seq<u64>) -> int
    decreases dts.len(),
{
    if dts.len() == 0 {
        0
    } else {
        dts[0] + total_ms(dts.skip(1))
    }
}

pub proof fn lemma_total_ms_nonneg(dts: Seq<u64>)
    ensures
        total_ms(dts) >= 0,
    decreases dts.len(),
{
    if dts.len() > 0 {
        lemma_total_ms_nonneg(dts.skip(1));
    }
}

/// Whether a pig is still alive after the given frames: each frame either
/// expires it (when its countdown fits in that frame's elapsed time) or ticks
/// it, exactly as the lifetime system does.
pub open spec fn pig_outlives(p: PigModel, dts: Seq<u64>) -> bool
    decreases dts.len(),
{
    if dts.len() == 0 {
        true
    } else if expires(p, dts[0]) {
        false
    } else {
        pig_outlives(ticked(p, dts[0]), dts.skip(1))
    }
}

/// A pig lives exactly until the elapsed frame times reach its countdown: it
/// outlives a sequence of frames if and only if their cumulative elapsed time
/// stays below its remaining countdown. Applied to every prefix of a run this
/// says both that the elapsed time until removal is at least the countdown,
/// and that the pig is removed within the very frame in which the cumulative
/// elapsed time first reaches it.
pub proof fn lemma_removal_timing(p: PigModel, dts: Seq<u64>)
    requires
        p.remaining_ms > 0,
    ensures
        pig_outlives(p, dts) <==> total_ms(dts) < p.remaining_ms,
    decreases dts.len(),
{
    if dts.len() > 0 {
        if expires(p, dts[0]) {
            lemma_total_ms_nonneg(dts.skip(1));
        } else {
            lemma_removal_timing(ticked(p, dts[0]), dts.skip(1));
        }
    }
}

/// Within one frame, removals and credits are paired exactly: the pig count
/// drops by the number of expiries (plus the one pig a successful spawn
/// added), and the balance moves by exactly one reward per removal (minus the
/// one cost a successful spawn debited) — no credit without a removal, no
/// removal without its credit.
pub proof fn lemma_credits_match_removals(m: WorldModel, input: InputSnapshot, dt_ms: u64)
    ensures
        ({
            let after = frame_model(m, input, dt_ms);
            let removed = expired_count(m.pigs, dt_ms);
            let bought: int = if input.spawn_just_pressed
                && spawn_allowed(movement_model(m, input, dt_ms)) {
                1
            } else {
                0
            };
            &&& 0 <= removed <= m.pigs.len()
            &&& after.pigs.len() == m.pigs.len() - removed + bought
            &&& after.balance == m.balance - SPAWN_COST_CENTS * bought
                + PIG_REWARD_CENTS * removed
        }),
{
    lemma_survivors_len(m.pigs, dt_ms);
    lemma_expired_count_bounds(m.pigs, dt_ms);
}

/// A frame with no active directional key leaves every player where it was.
pub proof fn lemma_idle_input_no_motion(p: PlayerModel, input: InputSnapshot, dt_ms: u64)
    requires
        input.idle(),
    ensures
        moved_player(p, input, dt_ms) == p,
{
    assert(moved_player(p, input, dt_ms) =~= p);
}

/// Moving up and right simultaneously for one frame displaces the player by
/// the full per-axis distance on both axes: diagonal movement is additive,
/// not normalized.
pub proof fn lemma_diagonal_unnormalized(p: PlayerModel, input: InputSnapshot, dt_ms: u64)
    requires
        input.up,
        input.right,
        !input.down,
        !input.left,
    ensures
        moved_player(p, input, dt_ms).x == p.x + p.speed * dt_ms,
        moved_player(p, input, dt_ms).y == p.y + p.speed * dt_ms,
{
}

} // verus!
