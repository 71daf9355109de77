//! Lifetime system: every frame, each live pig's countdown is decremented by
//! the elapsed time (clamped at zero); a pig whose countdown has run out is
//! removed in that same frame and the fixed reward is credited, one credit per
//! removal.

use vstd::prelude::*;
use crate::notice::Notice;
use crate::world::{Pig, PigModel, World, WorldModel, PIG_REWARD_CENTS};

verus! {

/// A pig whose countdown runs out within this frame's `dt_ms`.
pub open spec fn expires(p: PigModel, dt_ms: u64) -> bool {
    p.remaining_ms <= dt_ms
}

/// A pig after one frame's tick: the countdown decremented, clamped at zero.
pub open spec fn ticked(p: PigModel, dt_ms: u64) -> PigModel {
    PigModel {
        remaining_ms: if p.remaining_ms > dt_ms { p.remaining_ms - dt_ms } else { 0 },
        ..p
    }
}

/// The pigs still alive after one frame: the non-expiring ones, in their
/// original order, each ticked.
pub open spec fn survivors(pigs: Seq<PigModel>, dt_ms: u64) -> Seq<PigModel>
    decreases pigs.len(),
{
    if pigs.len() == 0 {
        Seq::empty()
    } else if expires(pigs.last(), dt_ms) {
        survivors(pigs.drop_last(), dt_ms)
    } else {
        survivors(pigs.drop_last(), dt_ms).push(ticked(pigs.last(), dt_ms))
    }
}

/// How many pigs expire within this frame.
pub open spec fn expired_count(pigs: Seq<PigModel>, dt_ms: u64) -> int
    decreases pigs.len(),
{
    if pigs.len() == 0 {
        0
    } else {
        expired_count(pigs.drop_last(), dt_ms) + (if expires(pigs.last(), dt_ms) {
            1int
        } else {
            0int
        })
    }
}

/// Between none and all of the pigs expire.
pub proof fn lemma_expired_count_bounds(pigs: Seq<PigModel>, dt_ms: u64)
    ensures
        0 <= expired_count(pigs, dt_ms) <= pigs.len(),
    decreases pigs.len(),
{
    if pigs.len() > 0 {
        lemma_expired_count_bounds(pigs.drop_last(), dt_ms);
    }
}

/// Exactly the expired pigs leave: the survivors account for all the rest.
pub proof fn lemma_survivors_len(pigs: Seq<PigModel>, dt_ms: u64)
    ensures
        survivors(pigs, dt_ms).len() == pigs.len() - expired_count(pigs, dt_ms),
    decreases pigs.len(),
{
    if pigs.len() > 0 {
        lemma_survivors_len(pigs.drop_last(), dt_ms);
    }
}

/// The world after the lifetime system ran over all live pigs.
pub open spec fn lifetime_model(m: WorldModel, dt_ms: u64) -> WorldModel {
    WorldModel {
        pigs: survivors(m.pigs, dt_ms),
        balance: m.balance + PIG_REWARD_CENTS * expired_count(m.pigs, dt_ms),
        ..m
    }
}

/// The notices of a frame that sold `k` pigs, starting from balance
/// `balance0`: one sale notice per removal, each carrying the running balance
/// after its credit.
pub open spec fn sold_notices(balance0: int, k: int) -> Seq<Notice> {
    Seq::new(
        k as nat,
        |j: int| Notice::PigSold { new_balance_cents: (balance0 + PIG_REWARD_CENTS * (j + 1)) as i64 },
    )
}

/// Machine limit: crediting up to `count` rewards keeps the balance in range.
pub open spec fn lifetime_fits(m: WorldModel, count: int) -> bool {
    m.balance + PIG_REWARD_CENTS * count <= i64::MAX
}

/// Ticks the first `count` pigs (those alive when the frame began), removing
/// the expired ones and crediting one reward per removal; pigs past `count`
/// (spawned this frame) are left for the next frame.
pub(crate) fn tick_pigs(world: &mut World, dt_ms: u64, count: usize) -> (notices: Vec<Notice>)
    requires
        old(world)@.wf(),
        count <= old(world).pigs.len(),
        lifetime_fits(old(world)@, count as int),
    ensures
        final(world)@.players == old(world)@.players,
        final(world)@.pigs == survivors(old(world)@.pigs.take(count as int), dt_ms)
            + old(world)@.pigs.skip(count as int),
        final(world)@.balance == old(world)@.balance
            + PIG_REWARD_CENTS * expired_count(old(world)@.pigs.take(count as int), dt_ms),
        notices@ == sold_notices(
            old(world)@.balance,
            expired_count(old(world)@.pigs.take(count as int), dt_ms),
        ),
        final(world)@.wf(),
{
    let ghost m0 = old(world)@;
    let mut kept: Vec<Pig> = Vec::new();
    let mut notices: Vec<Notice> = Vec::new();
    let mut i: usize = 0;
    while i < count
        invariant
            i <= count,
            count <= world.pigs.len(),
            world.players@ == old(world).players@,
            world.pigs@ == old(world).pigs@,
            m0 == old(world)@,
            m0.wf(),
            lifetime_fits(m0, count as int),
            kept@.map_values(|p: Pig| p@) == survivors(m0.pigs.take(i as int), dt_ms),
            world.money.0 == m0.balance + PIG_REWARD_CENTS * expired_count(m0.pigs.take(i as int), dt_ms),
            notices@ == sold_notices(m0.balance, expired_count(m0.pigs.take(i as int), dt_ms)),
        decreases count - i,
    {
        let pig = world.pigs[i];
        proof {
            assert(m0.pigs.take(i as int + 1).drop_last() =~= m0.pigs.take(i as int));
            assert(m0.pigs.take(i as int + 1).last() == pig@);
            lemma_expired_count_bounds(m0.pigs.take(i as int), dt_ms);
        }
        if pig.remaining_ms <= dt_ms {
            world.money.0 = world.money.0 + PIG_REWARD_CENTS;
            let notice = Notice::PigSold { new_balance_cents: world.money.0 };
            proof {
                assert(notices@.push(notice) =~= sold_notices(
                    m0.balance,
                    expired_count(m0.pigs.take(i as int + 1), dt_ms),
                ));
            }
            notices.push(notice);
        } else {
            let ticked_pig = Pig { x: pig.x, y: pig.y, remaining_ms: pig.remaining_ms - dt_ms };
            proof {
                assert(ticked_pig@ == ticked(pig@, dt_ms));
                assert(kept@.push(ticked_pig).map_values(|p: Pig| p@)
                    =~= kept@.map_values(|p: Pig| p@).push(ticked(pig@, dt_ms)));
            }
            kept.push(ticked_pig);
        }
        i = i + 1;
    }
    proof {
        lemma_expired_count_bounds(m0.pigs.take(count as int), dt_ms);
    }
    let n = world.pigs.len();
    while i < n
        invariant
            count <= i <= n,
            n == world.pigs.len(),
            world.players@ == old(world).players@,
            world.pigs@ == old(world).pigs@,
            m0 == old(world)@,
            world.money.0 == m0.balance + PIG_REWARD_CENTS * expired_count(m0.pigs.take(count as int), dt_ms),
            notices@ == sold_notices(m0.balance, expired_count(m0.pigs.take(count as int), dt_ms)),
            kept@.map_values(|p: Pig| p@) == survivors(m0.pigs.take(count as int), dt_ms)
                + m0.pigs.subrange(count as int, i as int),
        decreases n - i,
    {
        let pig = world.pigs[i];
        proof {
            assert(pig@ == m0.pigs[i as int]);
            assert(m0.pigs.subrange(count as int, i as int + 1)
                =~= m0.pigs.subrange(count as int, i as int).push(pig@));
            assert(survivors(m0.pigs.take(count as int), dt_ms)
                + m0.pigs.subrange(count as int, i as int).push(pig@)
                =~= (survivors(m0.pigs.take(count as int), dt_ms)
                    + m0.pigs.subrange(count as int, i as int)).push(pig@));
            assert(kept@.push(pig).map_values(|p: Pig| p@)
                =~= kept@.map_values(|p: Pig| p@).push(pig@));
        }
        kept.push(pig);
        i = i + 1;
    }
    world.pigs = kept;
    proof {
        assert(m0.pigs.subrange(count as int, n as int) =~= m0.pigs.skip(count as int));
        assert(world@.pigs =~= survivors(m0.pigs.take(count as int), dt_ms)
            + m0.pigs.skip(count as int));
        assert(world@.players =~= old(world)@.players);
    }
    notices
}

/// Runs the lifetime system for one frame over every live pig: countdowns
/// decremented by `dt_ms`, expired pigs removed, one reward credited per
/// removal, one sale notice per removal with the running balance.
pub fn pig_lifetime(world: &mut World, dt_ms: u64) -> (notices: Vec<Notice>)
    requires
        old(world)@.wf(),
        lifetime_fits(old(world)@, old(world)@.pigs.len() as int),
    ensures
        final(world)@ == lifetime_model(old(world)@, dt_ms),
        notices@ == sold_notices(old(world)@.balance, expired_count(old(world)@.pigs, dt_ms)),
        final(world)@.wf(),
{
    let n = world.pigs.len();
    let notices = tick_pigs(world, dt_ms, n);
    proof {
        assert(old(world)@.pigs.take(n as int) =~= old(world)@.pigs);
        assert(old(world)@.pigs.skip(n as int) =~= Seq::<PigModel>::empty());
        assert(world@ =~~= lifetime_model(old(world)@, dt_ms));
    }
    notices
}

} // verus!
