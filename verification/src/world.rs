//! World state: the player entities, the live timed entities ("pigs"), and
//! the currency balance, together with the mathematical model that every
//! contract in the crate speaks of.

use vstd::prelude::*;

verus! {

/// Balance at session start: 100.00 currency units, in cents.
pub const START_BALANCE_CENTS: i64 = 10000;

/// Price of one pig: 10.00 currency units, in cents.
pub const SPAWN_COST_CENTS: i64 = 1000;

/// Credit when a pig expires: 15.00 currency units, in cents.
pub const PIG_REWARD_CENTS: i64 = 1500;

/// Countdown a pig starts with: 2.0 seconds, in milliseconds.
pub const PIG_LIFETIME_MS: u64 = 2000;

/// Player speed at session start: 300 units per second.
pub const PLAYER_SPEED: u64 = 300;

/// A player-controlled entity: a position on the plane (in milliunits) and a
/// speed (in units per second).
#[derive(Clone, Copy, Debug, PartialEq, Eq, Structural)]
pub struct Player {
    pub x: i64,
    pub y: i64,
    pub speed: u64,
}

/// A timed entity: a position on the plane (in milliunits) and the remaining
/// countdown (in milliseconds, clamped at zero).
#[derive(Clone, Copy, Debug, PartialEq, Eq, Structural)]
pub struct Pig {
    pub x: i64,
    pub y: i64,
    pub remaining_ms: u64,
}

/// The currency balance, in cents.
#[derive(Clone, Copy, Debug, PartialEq, Eq, Structural)]
pub struct Money(pub i64);

/// The single source of truth a frame works on: the players, the live pigs,
/// and the balance.
pub struct World {
    pub players: Vec<Player>,
    pub pigs: Vec<Pig>,
    pub money: Money,
}

/// Mathematical model of a player: unbounded integers.
#[verifier::ext_equal]
pub ghost struct PlayerModel {
    pub x: int,
    pub y: int,
    pub speed: int,
}

/// Mathematical model of a pig.
#[verifier::ext_equal]
pub ghost struct PigModel {
    pub x: int,
    pub y: int,
    pub remaining_ms: int,
}

/// Mathematical model of the whole world.
#[verifier::ext_equal]
pub ghost struct WorldModel {
    pub players: Seq<PlayerModel>,
    pub pigs: Seq<PigModel>,
    pub balance: int,
}

impl View for Player {
    type V = PlayerModel;

    open spec fn view(&self) -> PlayerModel {
        PlayerModel { x: self.x as int, y: self.y as int, speed: self.speed as int }
    }
}

impl View for Pig {
    type V = PigModel;

    open spec fn view(&self) -> PigModel {
        PigModel { x: self.x as int, y: self.y as int, remaining_ms: self.remaining_ms as int }
    }
}

impl View for World {
    type V = WorldModel;

    open spec fn view(&self) -> WorldModel {
        WorldModel {
            players: self.players@.map_values(|p: Player| p@),
            pigs: self.pigs@.map_values(|p: Pig| p@),
            balance: self.money.0 as int,
        }
    }
}

impl WorldModel {
    /// The world invariant: the balance never goes negative.
    pub open spec fn wf(self) -> bool {
        self.balance >= 0
    }
}

/// The world a session starts with: one player at the origin, no pigs, and
/// the starting balance.
pub open spec fn initial_world() -> WorldModel {
    WorldModel {
        players: seq![PlayerModel { x: 0, y: 0, speed: PLAYER_SPEED as int }],
        pigs: Seq::empty(),
        balance: START_BALANCE_CENTS as int,
    }
}

impl World {
    /// Builds the session-start world.
    pub fn new() -> (w: World)
        ensures
            w@ == initial_world(),
            w@.wf(),
    {
        let mut players: Vec<Player> = Vec::new();
        players.push(Player { x: 0, y: 0, speed: PLAYER_SPEED });
        let w = World { players, pigs: Vec::new(), money: Money(START_BALANCE_CENTS) };
        proof {
            assert(w@ =~~= initial_world());
        }
        w
    }

    /// Current balance, in cents.
    pub fn balance_cents(&self) -> (b: i64)
        ensures
            b as int == self@.balance,
    {
        self.money.0
    }
}

} // verus!
