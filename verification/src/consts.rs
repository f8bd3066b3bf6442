use vstd::prelude::*;

verus! {

/// Milliseconds after which a player without a position update counts as gone.
pub const PLAYER_TIMEOUT: i64 = 60000;

/// Milliseconds during which two players that just finished an engagement
/// are not paired again.
pub const PLAYER_INTERACTION_TIMEOUT: i64 = 60000;

/// Experience gained by the winner of a fight between two players.
pub const PLAYER_XP_GAIN_ATTACK: i32 = 100;
/// Experience gained by each of two players that befriend each other.
pub const PLAYER_XP_GAIN_BEFRIEND: i32 = 100;
/// Experience gained by a player that attacks a player who offered friendship.
pub const PLAYER_XP_GAIN_ONESIDED_ATTACK: i32 = 100;

pub const PLAYER_MAX_HEALTH: i32 = 100;
pub const ZOMBIE_MAX_HEALTH: i32 = 100;
/// Health a player recovers on an update while not engaged with anyone.
pub const PLAYER_HEALTH_REGEN: i32 = 10;

/// Seconds between two ticks of the world.
pub const TICK: u64 = 5;

pub const NUMBER_OF_ZOMBIES: i64 = 5;
pub const NUMBER_OF_ITEMS: i64 = 5;

/// Item types are numbered from 0 up to, not including, this count.
pub const NUMBER_OF_ITEM_TYPES: i32 = 2;

/// A fight between players of equal experience goes to the first side with
/// a one in `TIE_BREAK_ODDS` chance.
pub const TIE_BREAK_ODDS: u32 = 2;

/// The state of one side of an engagement between two players, as stored in
/// the `state` column of a player engagement. Each state has a fixed numeric
/// code (see [`State::code`]).
#[derive(Clone, Copy, Debug, PartialEq, Eq, Structural)]
pub enum State {
    Idle,
    RunAway,
    Attack,
    Befriend,
    BothBefriended,
    WeRanAway,
    TheyRanAway,
    WonFight,
    LostFight,
    RobbingSuccess,
    Robbed,
}

/// The numeric code under which a state is stored.
pub open spec fn state_code(s: State) -> i32 {
    match s {
        State::Idle => 0,
        State::RunAway => 1,
        State::Attack => 2,
        State::Befriend => 3,
        State::BothBefriended => 42,
        State::WeRanAway => 100,
        State::TheyRanAway => 101,
        State::WonFight => 200,
        State::LostFight => 201,
        State::RobbingSuccess => 300,
        State::Robbed => 301,
    }
}

/// The state stored under a numeric code, if any.
pub open spec fn state_of_code(code: i32) -> Option<State> {
    if code == 0 {
        Some(State::Idle)
    } else if code == 1 {
        Some(State::RunAway)
    } else if code == 2 {
        Some(State::Attack)
    } else if code == 3 {
        Some(State::Befriend)
    } else if code == 42 {
        Some(State::BothBefriended)
    } else if code == 100 {
        Some(State::WeRanAway)
    } else if code == 101 {
        Some(State::TheyRanAway)
    } else if code == 200 {
        Some(State::WonFight)
    } else if code == 201 {
        Some(State::LostFight)
    } else if code == 300 {
        Some(State::RobbingSuccess)
    } else if code == 301 {
        Some(State::Robbed)
    } else {
        None
    }
}

impl State {
    /// The numeric code under which this state is stored.
    pub fn code(&self) -> (r: i32)
        ensures
            r == state_code(*self),
    {
        match self {
            State::Idle => 0,
            State::RunAway => 1,
            State::Attack => 2,
            State::Befriend => 3,
            State::BothBefriended => 42,
            State::WeRanAway => 100,
            State::TheyRanAway => 101,
            State::WonFight => 200,
            State::LostFight => 201,
            State::RobbingSuccess => 300,
            State::Robbed => 301,
        }
    }

    /// The state stored under `code`, or `None` for a code that names no state.
    pub fn from_code(code: i32) -> (r: Option<State>)
        ensures
            r == state_of_code(code),
    {
        if code == 0 {
            Some(State::Idle)
        } else if code == 1 {
            Some(State::RunAway)
        } else if code == 2 {
            Some(State::Attack)
        } else if code == 3 {
            Some(State::Befriend)
        } else if code == 42 {
            Some(State::BothBefriended)
        } else if code == 100 {
            Some(State::WeRanAway)
        } else if code == 101 {
            Some(State::TheyRanAway)
        } else if code == 200 {
            Some(State::WonFight)
        } else if code == 201 {
            Some(State::LostFight)
        } else if code == 300 {
            Some(State::RobbingSuccess)
        } else if code == 301 {
            Some(State::Robbed)
        } else {
            None
        }
    }
}

/// Reading back the code of a state gives that state again.
pub proof fn lemma_state_code_roundtrip(s: State)
    ensures
        state_of_code(state_code(s)) == Some(s),
{
}

/// A code names at most one state: decoding then encoding gives the code back.
pub proof fn lemma_code_state_roundtrip(code: i32)
    ensures
        state_of_code(code) matches Some(s) ==> state_code(s) == code,
{
}

/// Two different states are stored under different codes.
pub proof fn lemma_state_code_injective(a: State, b: State)
    ensures
        state_code(a) == state_code(b) ==> a == b,
{
}

} // verus!
