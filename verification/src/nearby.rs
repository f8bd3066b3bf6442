use vstd::prelude::*;
use crate::consts::{PLAYER_HEALTH_REGEN, PLAYER_MAX_HEALTH};
use crate::database::{Engagement, PlayerEngagement, PlayerInfo};

verus! {

/// The experience last stored for a player, or 0 where none is stored.
pub open spec fn last_xp_of(infos: Seq<PlayerInfo>) -> i32 {
    if infos.len() == 0 {
        0
    } else {
        infos.last().xp
    }
}

/// The experience last stored for a player, as [`last_xp_of`] says.
pub fn last_xp(infos: &Vec<PlayerInfo>) -> (r: i32)
    ensures
        r == last_xp_of(infos@),
{
    match infos.last() {
        Some(x) => x.xp,
        None => 0,
    }
}

/// The experience read for a player is the one stored last, or 0 where none
/// is stored.
pub proof fn lemma_last_xp_is_latest(infos: Seq<PlayerInfo>)
    ensures
        infos.len() == 0 ==> last_xp_of(infos) == 0,
        infos.len() > 0 ==> last_xp_of(infos) == infos[infos.len() - 1].xp,
{
}

/// The health last stored for a player, or 0 where none is stored.
pub open spec fn last_health_of(infos: Seq<PlayerInfo>) -> i32 {
    if infos.len() == 0 {
        0
    } else {
        infos.last().health
    }
}

/// The health of a resting player after one update: its last stored health
/// plus [`PLAYER_HEALTH_REGEN`], capped at [`PLAYER_MAX_HEALTH`]; `None`
/// where the sum does not fit in an `i32`.
pub open spec fn regenerated_health_of(infos: Seq<PlayerInfo>) -> Option<i32> {
    let h = last_health_of(infos) + PLAYER_HEALTH_REGEN;
    if h > i32::MAX {
        None
    } else if h > PLAYER_MAX_HEALTH {
        Some(PLAYER_MAX_HEALTH)
    } else {
        Some(h as i32)
    }
}

/// The health of a resting player after one update, as
/// [`regenerated_health_of`] says.
pub fn regenerated_health(infos: &Vec<PlayerInfo>) -> (r: Option<i32>)
    ensures
        r == regenerated_health_of(infos@),
{
    let mut health: i32 = 0;
    let mut i: usize = 0;
    while i < infos.len()
        invariant
            i <= infos@.len(),
            health == (if i == 0 { 0 } else { infos@[i - 1].health }),
        decreases infos@.len() - i,
    {
        health = infos[i].health;
        i = i + 1;
    }
    match health.checked_add(PLAYER_HEALTH_REGEN) {
        None => None,
        Some(h) => if h > PLAYER_MAX_HEALTH {
            Some(PLAYER_MAX_HEALTH)
        } else {
            Some(h)
        },
    }
}

/// Resting never heals above the maximum, and heals a player with room to
/// spare by exactly [`PLAYER_HEALTH_REGEN`].
pub proof fn lemma_rest_heals_within_bounds(infos: Seq<PlayerInfo>)
    ensures
        regenerated_health_of(infos) matches Some(h) ==> h <= PLAYER_MAX_HEALTH,
        last_health_of(infos) <= PLAYER_MAX_HEALTH - PLAYER_HEALTH_REGEN ==> regenerated_health_of(infos) == Some(
            (last_health_of(infos) + PLAYER_HEALTH_REGEN) as i32,
        ),
        last_health_of(infos) <= PLAYER_MAX_HEALTH ==> (regenerated_health_of(infos) matches Some(h)
            && h >= last_health_of(infos)),
{
}

/// Resting heals by the regeneration amount, capped at the maximum: with
/// `h` the last stored health (0 where none is stored), the new health is
/// the smaller of `h + PLAYER_HEALTH_REGEN` and `PLAYER_MAX_HEALTH`; only
/// where `h + PLAYER_HEALTH_REGEN` does not fit in an `i32` is there none.
pub proof fn lemma_rest_heals_by_regen_capped(infos: Seq<PlayerInfo>)
    ensures
        ({
            let h: int = if infos.len() == 0 { 0 } else { infos[infos.len() - 1].health as int };
            let healed = h + PLAYER_HEALTH_REGEN;
            &&& healed <= i32::MAX ==> regenerated_health_of(infos) == Some(
                (if healed > PLAYER_MAX_HEALTH { PLAYER_MAX_HEALTH as int } else { healed }) as i32,
            )
            &&& healed > i32::MAX ==> regenerated_health_of(infos) is None
        }),
{
}

/// A player rests, and so recovers health, on an update where it is in no
/// active engagement, with a player or with a zombie.
pub fn is_resting(player_engagements: &Vec<PlayerEngagement>, engagements: &Vec<Engagement>) -> (r: bool)
    ensures
        r == (player_engagements@.len() == 0 && engagements@.len() == 0),
{
    player_engagements.len() == 0 && engagements.len() == 0
}

/// The players reported back to the requesting player: all the nearby
/// players found for it, in the order found.
pub fn reported_players<T>(nearby: Vec<T>) -> (r: Vec<T>)
    ensures
        r@ == nearby@,
{
    nearby
}

/// All active engagements of an encounter between the requesting player and
/// another: the requesting player's own sides first, then the other sides.
pub fn combine_engagements(own: Vec<PlayerEngagement>, theirs: Vec<PlayerEngagement>) -> (r: Vec<PlayerEngagement>)
    ensures
        r@ == own@ + theirs@,
{
    let mut combined = own;
    let mut rest = theirs;
    combined.append(&mut rest);
    combined
}

} // verus!
