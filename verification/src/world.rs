use vstd::prelude::*;
use crate::chance::random_below;
use crate::consts::{state_code, state_of_code, State, NUMBER_OF_ITEM_TYPES};
use crate::database::{Engagement, PlayerEngagement};

verus! {

/// A zombie moves on a tick only while it is in no active engagement
/// (`active_engagements` holds its active engagements).
pub fn zombie_may_move(active_engagements: &Vec<Engagement>) -> (r: bool)
    ensures
        r == (active_engagements@.len() == 0),
{
    active_engagements.len() == 0
}

/// The engagement to start when a zombie comes within reach of a player at
/// `now_ms`: none where the zombie or the player is already in an active
/// engagement, otherwise an active, not yet accepted one.
pub open spec fn zombie_engagement_of(
    player_uid: i64,
    zombie_uid: i64,
    now_ms: i64,
    zombie_engaged: bool,
    player_engaged: bool,
) -> Option<Engagement> {
    if zombie_engaged || player_engaged {
        None
    } else {
        Some(Engagement { playeruid: player_uid, zombieuid: zombie_uid, timestamp: now_ms, active: 1, accepted: 0 })
    }
}

/// Decides on a zombie within reach of a player, as [`zombie_engagement_of`]
/// says. A new engagement ends the search for zombies near that player.
pub fn zombie_engagement(
    player_uid: i64,
    zombie_uid: i64,
    now_ms: i64,
    zombie_engaged: bool,
    player_engaged: bool,
) -> (r: Option<Engagement>)
    ensures
        r == zombie_engagement_of(player_uid, zombie_uid, now_ms, zombie_engaged, player_engaged),
{
    if zombie_engaged || player_engaged {
        None
    } else {
        Some(Engagement { playeruid: player_uid, zombieuid: zombie_uid, timestamp: now_ms, active: 1, accepted: 0 })
    }
}

/// Only an engagement already running keeps a zombie from a player: with
/// neither the zombie nor the player engaged, an active, not yet accepted
/// engagement of the two starts at `now_ms`, whatever their uids; with
/// either engaged, none starts.
pub proof fn lemma_free_parties_engage(p: i64, z: i64, now_ms: i64, zombie_engaged: bool, player_engaged: bool)
    ensures
        !zombie_engaged && !player_engaged ==> zombie_engagement_of(p, z, now_ms, zombie_engaged, player_engaged)
            == Some(Engagement { playeruid: p, zombieuid: z, timestamp: now_ms, active: 1, accepted: 0 }),
        zombie_engaged || player_engaged ==> zombie_engagement_of(p, z, now_ms, zombie_engaged, player_engaged)
            is None,
{
}

/// Whether the zombie `z` has an active engagement in the table `t`.
pub open spec fn zombie_active_in(t: Seq<Engagement>, z: i64) -> bool {
    exists|i: int| 0 <= i < t.len() && #[trigger] t[i].active == 1 && t[i].zombieuid == z
}

/// Whether the player `p` has an active engagement with a zombie in the
/// table `t`.
pub open spec fn player_active_in(t: Seq<Engagement>, p: i64) -> bool {
    exists|i: int| 0 <= i < t.len() && #[trigger] t[i].active == 1 && t[i].playeruid == p
}

/// Every zombie and every player is in at most one active engagement of
/// the table `t`.
pub open spec fn one_active_each(t: Seq<Engagement>) -> bool {
    forall|i: int, j: int|
        0 <= i < t.len() && 0 <= j < t.len() && i != j && #[trigger] t[i].active == 1 && #[trigger] t[j].active == 1
            ==> t[i].zombieuid != t[j].zombieuid && t[i].playeruid != t[j].playeruid
}

/// Starting zombie engagements keeps every zombie and every player in at
/// most one active engagement: where the table `t` holds at most one for
/// each, and the engagement is decided on what `t` holds for the two, the
/// table with the new engagement added does too.
pub proof fn lemma_zombie_engagement_keeps_one_active(t: Seq<Engagement>, p: i64, z: i64, now_ms: i64)
    requires
        one_active_each(t),
    ensures
        zombie_engagement_of(p, z, now_ms, zombie_active_in(t, z), player_active_in(t, p)) matches Some(e)
            ==> one_active_each(t.push(e)),
{
    if let Some(e) = zombie_engagement_of(p, z, now_ms, zombie_active_in(t, z), player_active_in(t, p)) {
        let u = t.push(e);
        assert forall|i: int, j: int|
            0 <= i < u.len() && 0 <= j < u.len() && i != j && #[trigger] u[i].active == 1 && #[trigger] u[j].active == 1
            implies u[i].zombieuid != u[j].zombieuid && u[i].playeruid != u[j].playeruid by {
            if i == t.len() {
                assert(t[j].active == 1);
                assert(!(t[j].zombieuid == z));
                assert(!(t[j].playeruid == p));
            } else if j == t.len() {
                assert(t[i].active == 1);
                assert(!(t[i].zombieuid == z));
                assert(!(t[i].playeruid == p));
            } else {
                assert(t[i].active == 1 && t[j].active == 1);
            }
        }
    }
}

/// Whether a player `other_uid` is worth a look for an encounter with
/// `player_uid`: it is another player, and within reach.
pub fn pair_candidate(player_uid: i64, other_uid: i64, in_reach: bool) -> (r: bool)
    ensures
        r == (player_uid != other_uid && in_reach),
{
    player_uid != other_uid && in_reach
}

/// What to do when another player comes within reach of a player.
#[derive(Clone, Copy, Debug, PartialEq, Eq, Structural)]
pub enum PairStep {
    /// The two are already engaged (or are the same player): look at the
    /// next player.
    KeepLooking,
    /// The two met a short while ago: start nothing, and stop looking.
    Stop,
    /// Start the encounter, stored once from each side, and stop looking.
    Engage(PlayerEngagement, PlayerEngagement),
}

/// A fresh, active encounter of `player1uid` with `player2uid` at `now_ms`,
/// from `player1uid`'s side, with no choice made yet.
pub open spec fn fresh_side(player1uid: i64, player2uid: i64, now_ms: i64) -> PlayerEngagement {
    PlayerEngagement { player1uid, player2uid, timestamp: now_ms, active: 1, state: state_code(State::Idle) }
}

/// The decision on a player `other_uid` within reach of `player_uid` at
/// `now_ms`, given whether the two are in an active engagement and whether
/// they finished one recently. A player is never paired with itself.
pub open spec fn pair_step_of(player_uid: i64, other_uid: i64, now_ms: i64, engaged: bool, met_recently: bool) -> PairStep {
    if player_uid == other_uid || engaged {
        PairStep::KeepLooking
    } else if met_recently {
        PairStep::Stop
    } else {
        PairStep::Engage(fresh_side(player_uid, other_uid, now_ms), fresh_side(other_uid, player_uid, now_ms))
    }
}

/// Decides on a player within reach, as [`pair_step_of`] says.
pub fn pair_step(player_uid: i64, other_uid: i64, now_ms: i64, engaged: bool, met_recently: bool) -> (r: PairStep)
    ensures
        r == pair_step_of(player_uid, other_uid, now_ms, engaged, met_recently),
{
    if player_uid == other_uid || engaged {
        PairStep::KeepLooking
    } else if met_recently {
        PairStep::Stop
    } else {
        let idle = State::Idle.code();
        PairStep::Engage(
            PlayerEngagement { player1uid: player_uid, player2uid: other_uid, timestamp: now_ms, active: 1, state: idle },
            PlayerEngagement { player1uid: other_uid, player2uid: player_uid, timestamp: now_ms, active: 1, state: idle },
        )
    }
}

/// Whether `b` is the other side of the encounter stored as `a`.
pub open spec fn mirrored(a: PlayerEngagement, b: PlayerEngagement) -> bool {
    &&& b.player1uid == a.player2uid
    &&& b.player2uid == a.player1uid
    &&& b.timestamp == a.timestamp
    &&& b.active == a.active
    &&& b.state == a.state
}

/// Every encounter between two players is started from both sides at once:
/// the two records are mirror images of each other, active, with no choice
/// made yet.
pub proof fn lemma_new_encounter_mirrored(player_uid: i64, other_uid: i64, now_ms: i64)
    ensures
        mirrored(fresh_side(player_uid, other_uid, now_ms), fresh_side(other_uid, player_uid, now_ms)),
        mirrored(fresh_side(other_uid, player_uid, now_ms), fresh_side(player_uid, other_uid, now_ms)),
        fresh_side(player_uid, other_uid, now_ms).active == 1,
        state_of_code(fresh_side(player_uid, other_uid, now_ms).state) == Some(State::Idle),
{
}

/// Whether the table `t` holds an active record of `a`'s side of an
/// encounter with `b`.
pub open spec fn active_pair_in(t: Seq<PlayerEngagement>, a: i64, b: i64) -> bool {
    exists|i: int| 0 <= i < t.len() && #[trigger] t[i].active == 1 && t[i].player1uid == a && t[i].player2uid == b
}

/// No active record of the table `t` pairs a player with itself, and no
/// two active records are the same side of the same encounter.
pub open spec fn pairs_unique(t: Seq<PlayerEngagement>) -> bool {
    &&& forall|i: int| 0 <= i < t.len() && #[trigger] t[i].active == 1 ==> t[i].player1uid != t[i].player2uid
    &&& forall|i: int, j: int|
        0 <= i < t.len() && 0 <= j < t.len() && i != j && #[trigger] t[i].active == 1 && #[trigger] t[j].active == 1
            ==> !(t[i].player1uid == t[j].player1uid && t[i].player2uid == t[j].player2uid)
}

/// Starting encounters between players keeps them unique: decided on what
/// the table `t` holds for `a`'s side, a new encounter pairs two different
/// players, is stored as two mirrored records, and leaves no two active
/// records for the same side of the same encounter. Afterwards both sides are active, so
/// the pair is not started again while they stay so ([`pair_step_of`]
/// then answers `KeepLooking`). Stated where `t` holds no active record of
/// `b`'s side (settling an encounter closes only the
/// requesting side, and such a leftover record would be doubled).
pub proof fn lemma_new_pair_keeps_pairs_unique(t: Seq<PlayerEngagement>, a: i64, b: i64, now_ms: i64, met_recently: bool)
    requires
        pairs_unique(t),
        !active_pair_in(t, b, a),
    ensures
        pair_step_of(a, b, now_ms, active_pair_in(t, a, b), met_recently) matches PairStep::Engage(x, y) ==> {
            &&& x.player1uid == a && x.player2uid == b && a != b
            &&& mirrored(x, y)
            &&& pairs_unique(t.push(x).push(y))
            &&& active_pair_in(t.push(x).push(y), a, b)
            &&& active_pair_in(t.push(x).push(y), b, a)
        },
{
    if let PairStep::Engage(x, y) = pair_step_of(a, b, now_ms, active_pair_in(t, a, b), met_recently) {
        let u = t.push(x).push(y);
        let n = t.len() as int;
        assert(u[n].active == 1);
        assert(u[n + 1].active == 1);
        assert forall|i: int| 0 <= i < u.len() && #[trigger] u[i].active == 1 implies u[i].player1uid != u[i].player2uid by {
            if i < n {
                assert(t[i].active == 1);
            }
        }
        assert forall|i: int, j: int|
            0 <= i < u.len() && 0 <= j < u.len() && i != j && #[trigger] u[i].active == 1 && #[trigger] u[j].active == 1
            implies !(u[i].player1uid == u[j].player1uid && u[i].player2uid == u[j].player2uid) by {
            if i < n && j < n {
                assert(t[i].active == 1 && t[j].active == 1);
            } else if i < n {
                assert(t[i].active == 1);
                assert(!(t[i].player1uid == a && t[i].player2uid == b));
                assert(!(t[i].player1uid == b && t[i].player2uid == a));
            } else if j < n {
                assert(t[j].active == 1);
                assert(!(t[j].player1uid == a && t[j].player2uid == b));
                assert(!(t[j].player1uid == b && t[j].player2uid == a));
            }
        }
    }
}

/// The first uid to hand out when spawning: one past the newest uid in use
/// (`newest` holds it first, or is empty where none is in use), or 0.
pub open spec fn first_spawn_uid(newest: Seq<i64>) -> int {
    if newest.len() == 0 {
        0
    } else {
        newest[0] + 1
    }
}

/// The uids of `count` new zombies or items: consecutive, from
/// [`first_spawn_uid`] on; `None` where the first uid or the end of the run
/// does not fit in an `i64`.
pub open spec fn spawn_uids_of(newest: Seq<i64>, count: i64) -> Option<Seq<i64>> {
    let start = first_spawn_uid(newest);
    if start > i64::MAX || start + count > i64::MAX || start + count < i64::MIN {
        None
    } else {
        Some(Seq::new(if count > 0 { count as nat } else { 0 }, |i: int| (start + i) as i64))
    }
}

/// Hands out the uids of `count` new zombies or items, as [`spawn_uids_of`]
/// says.
pub fn spawn_uids(newest: &Vec<i64>, count: i64) -> (r: Option<Vec<i64>>)
    ensures
        match spawn_uids_of(newest@, count) {
            Some(s) => r matches Some(v) && v@ == s,
            None => r is None,
        },
{
    let start: i64 = if newest.len() == 0 {
        0
    } else {
        match newest[0].checked_add(1) {
            Some(v) => v,
            None => return None,
        }
    };
    let end: i64 = match start.checked_add(count) {
        Some(v) => v,
        None => return None,
    };
    let mut uids: Vec<i64> = Vec::new();
    let mut uid: i64 = start;
    while uid < end
        invariant
            start <= uid,
            uid <= end || count <= 0,
            uid == start || uid <= end,
            uids@.len() == uid - start,
            forall|i: int| 0 <= i < uids@.len() ==> uids@[i] == start + i,
        decreases end - uid,
    {
        uids.push(uid);
        uid = uid + 1;
    }
    proof {
        let expected = Seq::new(if count > 0 { count as nat } else { 0 }, |i: int| (start + i) as i64);
        assert(uids@ =~= expected);
    }
    Some(uids)
}

/// Spawned uids are fresh: each lies above the newest uid in use, and no
/// two are the same.
pub proof fn lemma_spawn_uids_fresh(newest: Seq<i64>, count: i64, i: int, j: int)
    requires
        spawn_uids_of(newest, count) is Some,
        0 <= i < spawn_uids_of(newest, count).unwrap().len(),
        0 <= j < spawn_uids_of(newest, count).unwrap().len(),
    ensures
        newest.len() > 0 ==> spawn_uids_of(newest, count).unwrap()[i] > newest[0],
        i != j ==> spawn_uids_of(newest, count).unwrap()[i] != spawn_uids_of(newest, count).unwrap()[j],
{
}

/// Spawning hands out exactly `count` uids (none for a count that is not
/// positive), consecutive and starting at 0 where no uid is in use, else
/// right after the newest one; it fails only where the run would leave the
/// `i64` range.
pub proof fn lemma_spawn_uids_run(newest: Seq<i64>, count: i64)
    ensures
        ({
            let start: int = if newest.len() == 0 { 0 } else { newest[0] + 1 };
            &&& (spawn_uids_of(newest, count) is None) <==> (start > i64::MAX || start + count > i64::MAX || start
                + count < i64::MIN)
            &&& spawn_uids_of(newest, count) matches Some(v) ==> {
                &&& v.len() == (if count > 0 { count as int } else { 0 })
                &&& forall|i: int| 0 <= i < v.len() ==> v[i] == start + i
            }
        }),
{
}

/// Two players meet only as two different players that are neither engaged
/// nor met recently; already engaged (or the same player) means looking
/// on, a recent meeting means stopping without a new encounter.
pub proof fn lemma_pair_step_cases(a: i64, b: i64, now_ms: i64, engaged: bool, met_recently: bool)
    ensures
        (pair_step_of(a, b, now_ms, engaged, met_recently) is Engage) <==> (a != b && !engaged && !met_recently),
        (pair_step_of(a, b, now_ms, engaged, met_recently) is Stop) <==> (a != b && !engaged && met_recently),
        (pair_step_of(a, b, now_ms, engaged, met_recently) is KeepLooking) <==> (a == b || engaged),
        pair_step_of(a, b, now_ms, engaged, met_recently) matches PairStep::Engage(x, y) ==> {
            &&& x == PlayerEngagement { player1uid: a, player2uid: b, timestamp: now_ms, active: 1, state: 0 }
            &&& y == PlayerEngagement { player1uid: b, player2uid: a, timestamp: now_ms, active: 1, state: 0 }
        },
{
}

/// Draws the types of `count` new items, each by chance, each below
/// [`NUMBER_OF_ITEM_TYPES`].
pub fn roll_item_types(count: usize) -> (r: Vec<i32>)
    ensures
        r@.len() == count,
        forall|i: int| 0 <= i < count ==> 0 <= #[trigger] r@[i] < NUMBER_OF_ITEM_TYPES,
{
    let mut types: Vec<i32> = Vec::new();
    let mut i: usize = 0;
    while i < count
        invariant
            i <= count,
            types@.len() == i,
            forall|k: int| 0 <= k < i ==> 0 <= #[trigger] types@[k] < NUMBER_OF_ITEM_TYPES,
        decreases count - i,
    {
        types.push(random_below(NUMBER_OF_ITEM_TYPES));
        i = i + 1;
    }
    types
}

} // verus!
