use vstd::prelude::*;

verus! {

/// A zombie's engagement with a player: the player has been approached by
/// the zombie; `accepted` turns 1 once the player's client acknowledged it
/// and `active` turns 0 once the fight is over.
#[derive(Clone, Copy, Debug, PartialEq, Eq, Structural)]
pub struct Engagement {
    pub playeruid: i64,
    pub zombieuid: i64,
    pub timestamp: i64,
    pub active: i32,
    pub accepted: i32,
}

/// One side of an engagement between two players: `player1uid`'s view of
/// the encounter with `player2uid`. Every encounter is stored twice, once
/// from each side. `state` holds the code of a [`crate::consts::State`].
#[derive(Clone, Copy, Debug, PartialEq, Eq, Structural)]
pub struct PlayerEngagement {
    pub player1uid: i64,
    pub player2uid: i64,
    pub timestamp: i64,
    pub active: i32,
    pub state: i32,
}

/// The experience and health stored for a player.
#[derive(Clone, Copy, Debug, PartialEq, Eq, Structural)]
pub struct PlayerInfo {
    pub playeruid: i64,
    pub xp: i32,
    pub health: i32,
}

} // verus!
