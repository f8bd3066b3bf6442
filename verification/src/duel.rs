use vstd::prelude::*;
use crate::consts::{
    state_code, state_of_code, State, PLAYER_XP_GAIN_ATTACK, PLAYER_XP_GAIN_BEFRIEND, PLAYER_XP_GAIN_ONESIDED_ATTACK, TIE_BREAK_ODDS,
};
use crate::database::PlayerEngagement;
use crate::chance::one_in;

verus! {

/// A change to the stored game state that settling an encounter between
/// two players asks for.
#[derive(Clone, Copy, Debug, PartialEq, Eq, Structural)]
pub enum StoreUpdate {
    /// Set the experience of player `playeruid` to `xp`.
    SetXp { playeruid: i64, xp: i32 },
    /// Set the health of player `playeruid` to `health`.
    SetHealth { playeruid: i64, health: i32 },
    /// Set the state of `player1uid`'s engagement with `player2uid` to the
    /// code `state`; with `deactivate`, mark it inactive as well; with
    /// `only_active`, touch only records that are still active.
    SetEngagementState { player1uid: i64, player2uid: i64, state: i32, deactivate: bool, only_active: bool },
    /// Mark `player1uid`'s engagement with `player2uid` inactive.
    CloseEngagement { player1uid: i64, player2uid: i64 },
}

/// How an encounter between two players ends, judged from the two choices
/// made. "First" is the side stored first, the requesting player's own.
#[derive(Clone, Copy, Debug, PartialEq, Eq, Structural)]
pub enum Resolution {
    /// One side ran away; `first_ran` tells whether it was the first.
    RanAway { first_ran: bool },
    /// Both attacked; `first_won` tells whether the first side won.
    Fight { first_won: bool },
    /// Both offered friendship.
    Friends,
    /// One attacked while the other offered friendship; `first_robs` tells
    /// whether the first side attacked.
    Robbery { first_robs: bool },
    /// The choices made so far settle nothing.
    Pending,
}

/// How the choices `s0` (first side) and `s1` (second side) end the
/// encounter. A fight goes to the side with more experience (`p1xp` for
/// the first, `p2xp` for the second); on equal experience `coin` decides.
pub open spec fn resolution_of(s0: i32, s1: i32, p1xp: i32, p2xp: i32, coin: bool) -> Resolution {
    let run = state_code(State::RunAway);
    let attack = state_code(State::Attack);
    let befriend = state_code(State::Befriend);
    if s0 == run || s1 == run {
        Resolution::RanAway { first_ran: s0 == run }
    } else if s0 == attack && s1 == attack {
        Resolution::Fight { first_won: if p1xp > p2xp { true } else if p1xp < p2xp { false } else { coin } }
    } else if s0 == befriend && s1 == befriend {
        Resolution::Friends
    } else if s0 == attack && s1 == befriend {
        Resolution::Robbery { first_robs: true }
    } else if s0 == befriend && s1 == attack {
        Resolution::Robbery { first_robs: false }
    } else {
        Resolution::Pending
    }
}

pub open spec fn fits_i32(x: int) -> bool {
    i32::MIN <= x <= i32::MAX
}

/// Every experience award of the resolution fits in an `i32`.
pub open spec fn awards_fit(r: Resolution, p1xp: i32, p2xp: i32) -> bool {
    match r {
        Resolution::Fight { first_won } =>
            fits_i32((if first_won { p1xp } else { p2xp }) + PLAYER_XP_GAIN_ATTACK),
        Resolution::Friends =>
            fits_i32(p1xp + PLAYER_XP_GAIN_BEFRIEND) && fits_i32(p2xp + PLAYER_XP_GAIN_BEFRIEND),
        Resolution::Robbery { first_robs } =>
            fits_i32((if first_robs { p1xp } else { p2xp }) + PLAYER_XP_GAIN_ONESIDED_ATTACK),
        _ => true,
    }
}

pub open spec fn set_state(e: PlayerEngagement, state: State, deactivate: bool, only_active: bool) -> StoreUpdate {
    StoreUpdate::SetEngagementState {
        player1uid: e.player1uid,
        player2uid: e.player2uid,
        state: state_code(state),
        deactivate,
        only_active,
    }
}

/// The store updates that end the encounter stored as `c0` (the first side)
/// and `c1` (the second side) as `r` says. `uid` is the requesting player.
pub open spec fn resolution_updates(
    c0: PlayerEngagement,
    c1: PlayerEngagement,
    r: Resolution,
    p1xp: i32,
    p2xp: i32,
    uid: i64,
) -> Seq<StoreUpdate> {
    match r {
        Resolution::RanAway { first_ran } => seq![
            set_state(c0, if first_ran { State::WeRanAway } else { State::TheyRanAway }, true, false),
            set_state(c1, if first_ran { State::TheyRanAway } else { State::WeRanAway }, false, false),
        ],
        Resolution::Fight { first_won } => seq![
            if first_won {
                StoreUpdate::SetXp { playeruid: c0.player1uid, xp: (p1xp + PLAYER_XP_GAIN_ATTACK) as i32 }
            } else {
                StoreUpdate::SetXp { playeruid: c0.player2uid, xp: (p2xp + PLAYER_XP_GAIN_ATTACK) as i32 }
            },
            set_state(c0, if first_won { State::WonFight } else { State::LostFight }, true, true),
            set_state(c1, if first_won { State::LostFight } else { State::WonFight }, false, true),
        ],
        Resolution::Friends => seq![
            StoreUpdate::SetXp { playeruid: c0.player1uid, xp: (p1xp + PLAYER_XP_GAIN_BEFRIEND) as i32 },
            StoreUpdate::SetXp { playeruid: c0.player2uid, xp: (p2xp + PLAYER_XP_GAIN_BEFRIEND) as i32 },
            set_state(c0, State::BothBefriended, true, false),
            set_state(c1, State::BothBefriended, false, false),
        ],
        Resolution::Robbery { first_robs } => if first_robs {
            seq![
                StoreUpdate::SetXp { playeruid: c0.player1uid, xp: (p1xp + PLAYER_XP_GAIN_ONESIDED_ATTACK) as i32 },
                set_state(c0, State::RobbingSuccess, true, false),
                set_state(c1, State::Robbed, false, false),
            ]
        } else {
            seq![
                StoreUpdate::SetXp { playeruid: c0.player2uid, xp: (p2xp + PLAYER_XP_GAIN_ONESIDED_ATTACK) as i32 },
                StoreUpdate::SetHealth { playeruid: uid, health: 1 },
                set_state(c0, State::Robbed, true, true),
                set_state(c1, State::RobbingSuccess, false, true),
            ]
        },
        Resolution::Pending => seq![],
    }
}

/// The engagements as handed back after the resolution `r`: a fight writes
/// its outcome into the two records, every other resolution leaves them.
pub open spec fn resolved_engagements(c0: PlayerEngagement, c1: PlayerEngagement, r: Resolution) -> Seq<PlayerEngagement> {
    match r {
        Resolution::Fight { first_won } => seq![
            PlayerEngagement { state: state_code(if first_won { State::WonFight } else { State::LostFight }), ..c0 },
            PlayerEngagement { state: state_code(if first_won { State::LostFight } else { State::WonFight }), ..c1 },
        ],
        _ => seq![c0, c1],
    }
}

/// Settling the active engagements `es` of the requesting player `uid`
/// (its own side first, then the other player's side): the store updates to
/// make and the engagements to report back, or `None` where an experience
/// award would not fit in an `i32`.
/// Two sides: the encounter is resolved. One side: it is closed when it is
/// the requesting player's own. Otherwise nothing happens.
pub open spec fn settlement(es: Seq<PlayerEngagement>, p1xp: i32, p2xp: i32, uid: i64, coin: bool)
    -> Option<(Seq<StoreUpdate>, Seq<PlayerEngagement>)>
{
    if es.len() == 2 {
        let r = resolution_of(es[0].state, es[1].state, p1xp, p2xp, coin);
        if awards_fit(r, p1xp, p2xp) {
            Some((resolution_updates(es[0], es[1], r, p1xp, p2xp, uid), resolved_engagements(es[0], es[1], r)))
        } else {
            None
        }
    } else if es.len() == 1 && es[0].player1uid == uid {
        Some((seq![StoreUpdate::CloseEngagement { player1uid: es[0].player1uid, player2uid: es[0].player2uid }], es))
    } else {
        Some((seq![], es))
    }
}

/// Whether the outcome `r` (updates handed back) and `after` (engagements
/// after the call) are what `expected` says, `before` being the engagements
/// before the call.
pub open spec fn settled_as(
    r: Option<Vec<StoreUpdate>>,
    before: Seq<PlayerEngagement>,
    after: Seq<PlayerEngagement>,
    expected: Option<(Seq<StoreUpdate>, Seq<PlayerEngagement>)>,
) -> bool {
    match expected {
        Some((updates, es)) => r matches Some(v) && v@ == updates && after == es,
        None => r is None && after == before,
    }
}

/// Whether settling `es` has to roll the dice: both players attack and
/// have the same experience.
pub open spec fn needs_dice(es: Seq<PlayerEngagement>, p1xp: i32, p2xp: i32) -> bool {
    &&& es.len() == 2
    &&& es[0].state == state_code(State::Attack)
    &&& es[1].state == state_code(State::Attack)
    &&& p1xp == p2xp
}

/// Judges the two choices as [`resolution_of`] says.
pub fn resolve(s0: i32, s1: i32, p1xp: i32, p2xp: i32, coin: bool) -> (r: Resolution)
    ensures
        r == resolution_of(s0, s1, p1xp, p2xp, coin),
{
    let run = State::RunAway.code();
    let attack = State::Attack.code();
    let befriend = State::Befriend.code();
    if s0 == run || s1 == run {
        Resolution::RanAway { first_ran: s0 == run }
    } else if s0 == attack && s1 == attack {
        let first_won = if p1xp > p2xp {
            true
        } else if p1xp < p2xp {
            false
        } else {
            coin
        };
        Resolution::Fight { first_won }
    } else if s0 == befriend && s1 == befriend {
        Resolution::Friends
    } else if s0 == attack && s1 == befriend {
        Resolution::Robbery { first_robs: true }
    } else if s0 == befriend && s1 == attack {
        Resolution::Robbery { first_robs: false }
    } else {
        Resolution::Pending
    }
}

fn state_update(e: &PlayerEngagement, state: State, deactivate: bool, only_active: bool) -> (u: StoreUpdate)
    ensures
        u == set_state(*e, state, deactivate, only_active),
{
    StoreUpdate::SetEngagementState {
        player1uid: e.player1uid,
        player2uid: e.player2uid,
        state: state.code(),
        deactivate,
        only_active,
    }
}

/// Settles the active engagements of the requesting player `uid` as
/// [`settlement`] says, with `coin` deciding a fight between players of
/// equal experience: hands back the store updates and rewrites
/// `engagements` into what is reported back to the player. Where an
/// experience award would not fit in an `i32` it hands back `None` and
/// leaves `engagements` as they were.
pub fn settle_player_engagements_with(
    engagements: &mut Vec<PlayerEngagement>,
    p1xp: i32,
    p2xp: i32,
    uid: i64,
    coin: bool,
) -> (r: Option<Vec<StoreUpdate>>)
    ensures
        settled_as(r, old(engagements)@, final(engagements)@, settlement(old(engagements)@, p1xp, p2xp, uid, coin)),
{
    let n = engagements.len();
    if n == 2 {
        let c0 = engagements[0];
        let c1 = engagements[1];
        let r = resolve(c0.state, c1.state, p1xp, p2xp, coin);
        let mut updates: Vec<StoreUpdate> = Vec::new();
        match r {
            Resolution::RanAway { first_ran } => {
                updates.push(state_update(&c0, if first_ran { State::WeRanAway } else { State::TheyRanAway }, true, false));
                updates.push(state_update(&c1, if first_ran { State::TheyRanAway } else { State::WeRanAway }, false, false));
            },
            Resolution::Fight { first_won } => {
                let (winner, xp) = if first_won { (c0.player1uid, p1xp) } else { (c0.player2uid, p2xp) };
                let awarded = match xp.checked_add(PLAYER_XP_GAIN_ATTACK) {
                    Some(v) => v,
                    None => return None,
                };
                updates.push(StoreUpdate::SetXp { playeruid: winner, xp: awarded });
                updates.push(state_update(&c0, if first_won { State::WonFight } else { State::LostFight }, true, true));
                updates.push(state_update(&c1, if first_won { State::LostFight } else { State::WonFight }, false, true));
                let won = State::WonFight.code();
                let lost = State::LostFight.code();
                engagements.set(0, PlayerEngagement { state: if first_won { won } else { lost }, ..c0 });
                engagements.set(1, PlayerEngagement { state: if first_won { lost } else { won }, ..c1 });
            },
            Resolution::Friends => {
                let x1 = match p1xp.checked_add(PLAYER_XP_GAIN_BEFRIEND) {
                    Some(v) => v,
                    None => return None,
                };
                let x2 = match p2xp.checked_add(PLAYER_XP_GAIN_BEFRIEND) {
                    Some(v) => v,
                    None => return None,
                };
                updates.push(StoreUpdate::SetXp { playeruid: c0.player1uid, xp: x1 });
                updates.push(StoreUpdate::SetXp { playeruid: c0.player2uid, xp: x2 });
                updates.push(state_update(&c0, State::BothBefriended, true, false));
                updates.push(state_update(&c1, State::BothBefriended, false, false));
            },
            Resolution::Robbery { first_robs } => {
                if first_robs {
                    let x1 = match p1xp.checked_add(PLAYER_XP_GAIN_ONESIDED_ATTACK) {
                        Some(v) => v,
                        None => return None,
                    };
                    updates.push(StoreUpdate::SetXp { playeruid: c0.player1uid, xp: x1 });
                    updates.push(state_update(&c0, State::RobbingSuccess, true, false));
                    updates.push(state_update(&c1, State::Robbed, false, false));
                } else {
                    let x2 = match p2xp.checked_add(PLAYER_XP_GAIN_ONESIDED_ATTACK) {
                        Some(v) => v,
                        None => return None,
                    };
                    updates.push(StoreUpdate::SetXp { playeruid: c0.player2uid, xp: x2 });
                    updates.push(StoreUpdate::SetHealth { playeruid: uid, health: 1 });
                    updates.push(state_update(&c0, State::Robbed, true, true));
                    updates.push(state_update(&c1, State::RobbingSuccess, false, true));
                }
            },
            Resolution::Pending => {},
        }
        proof {
            assert(updates@ =~= resolution_updates(c0, c1, r, p1xp, p2xp, uid));
            assert(engagements@ =~= resolved_engagements(c0, c1, r));
        }
        Some(updates)
    } else if n == 1 && engagements[0].player1uid == uid {
        let mut updates: Vec<StoreUpdate> = Vec::new();
        updates.push(StoreUpdate::CloseEngagement {
            player1uid: engagements[0].player1uid,
            player2uid: engagements[0].player2uid,
        });
        proof {
            assert(updates@ =~= seq![StoreUpdate::CloseEngagement { player1uid: engagements@[0].player1uid, player2uid: engagements@[0].player2uid }]);
        }
        Some(updates)
    } else {
        let updates: Vec<StoreUpdate> = Vec::new();
        proof {
            assert(updates@ =~= seq![]);
        }
        Some(updates)
    }
}

/// Settles the active engagements of the requesting player `uid` as
/// [`settle_player_engagements_with`] does, drawing the tie-break (first side
/// wins with a one in [`TIE_BREAK_ODDS`] chance) where a fight between
/// players of equal experience needs one: the outcome is the
/// [`settlement`] for some coin, and for the one with no dice involved
/// where [`needs_dice`] does not hold.
pub fn settle_player_engagements(engagements: &mut Vec<PlayerEngagement>, p1xp: i32, p2xp: i32, uid: i64) -> (r:
    Option<Vec<StoreUpdate>>)
    ensures
        exists|coin: bool|
            settled_as(r, old(engagements)@, final(engagements)@, #[trigger] settlement(old(engagements)@, p1xp, p2xp, uid, coin)),
        !needs_dice(old(engagements)@, p1xp, p2xp) ==> settled_as(
            r,
            old(engagements)@,
            final(engagements)@,
            settlement(old(engagements)@, p1xp, p2xp, uid, false),
        ),
{
    let dice = engagements.len() == 2 && engagements[0].state == State::Attack.code() && engagements[1].state
        == State::Attack.code() && p1xp == p2xp;
    let coin = if dice {
        one_in(TIE_BREAK_ODDS)
    } else {
        false
    };
    let ghost before = engagements@;
    let r = settle_player_engagements_with(engagements, p1xp, p2xp, uid, coin);
    proof {
        assert(settled_as(r, before, engagements@, settlement(before, p1xp, p2xp, uid, coin)));
        if !needs_dice(before, p1xp, p2xp) {
            assert(!dice);
        }
    }
    r
}

/// The coin decides nothing unless both players attack with equal
/// experience: where [`needs_dice`] does not hold, settling with either coin
/// gives the same outcome.
pub proof fn lemma_dice_only_on_tie(es: Seq<PlayerEngagement>, p1xp: i32, p2xp: i32, uid: i64)
    requires
        !needs_dice(es, p1xp, p2xp),
    ensures
        settlement(es, p1xp, p2xp, uid, true) == settlement(es, p1xp, p2xp, uid, false),
{
}

/// The state that the other side of an encounter ends in when one side ends
/// in `s`.
pub open spec fn counterpart(s: State) -> State {
    match s {
        State::WeRanAway => State::TheyRanAway,
        State::TheyRanAway => State::WeRanAway,
        State::WonFight => State::LostFight,
        State::LostFight => State::WonFight,
        State::RobbingSuccess => State::Robbed,
        State::Robbed => State::RobbingSuccess,
        other => other,
    }
}

/// Whether `u` writes the state code `state` into `e`'s record, deactivating
/// it when `deactivate` is set.
pub open spec fn writes_state(u: StoreUpdate, e: PlayerEngagement, state: i32, deactivate: bool) -> bool {
    u matches StoreUpdate::SetEngagementState { player1uid, player2uid, state: s, deactivate: d, .. } && player1uid
        == e.player1uid && player2uid == e.player2uid && s == state && d == deactivate
}

/// Every encounter that gets resolved ends the two sides in mirrored
/// states: the last two updates write a state into the first side's record
/// (and close it) and its [`counterpart`] into the second side's record.
pub proof fn lemma_resolved_sides_mirror(es: Seq<PlayerEngagement>, p1xp: i32, p2xp: i32, uid: i64, coin: bool)
    requires
        es.len() == 2,
        resolution_of(es[0].state, es[1].state, p1xp, p2xp, coin) != Resolution::Pending,
        settlement(es, p1xp, p2xp, uid, coin) is Some,
    ensures
        ({
            let u = settlement(es, p1xp, p2xp, uid, coin).unwrap().0;
            u.len() >= 2 && exists|s: State|
                writes_state(u[u.len() - 2], es[0], state_code(s), true) && #[trigger] writes_state(
                    u[u.len() - 1],
                    es[1],
                    state_code(counterpart(s)),
                    false,
                )
        }),
{
    let r = resolution_of(es[0].state, es[1].state, p1xp, p2xp, coin);
    let u = settlement(es, p1xp, p2xp, uid, coin).unwrap().0;
    let s = match r {
        Resolution::RanAway { first_ran } => if first_ran { State::WeRanAway } else { State::TheyRanAway },
        Resolution::Fight { first_won } => if first_won { State::WonFight } else { State::LostFight },
        Resolution::Friends => State::BothBefriended,
        Resolution::Robbery { first_robs } => if first_robs { State::RobbingSuccess } else { State::Robbed },
        Resolution::Pending => State::Idle,
    };
    assert(writes_state(u[u.len() - 2], es[0], state_code(s), true));
    assert(writes_state(u[u.len() - 1], es[1], state_code(counterpart(s)), false));
}

/// Experience only grows: every experience update that settling asks for
/// raises the experience of one of the two players above what was read for
/// that player.
pub proof fn lemma_xp_only_grows(es: Seq<PlayerEngagement>, p1xp: i32, p2xp: i32, uid: i64, coin: bool, i: int)
    requires
        settlement(es, p1xp, p2xp, uid, coin) is Some,
        0 <= i < settlement(es, p1xp, p2xp, uid, coin).unwrap().0.len(),
    ensures
        settlement(es, p1xp, p2xp, uid, coin).unwrap().0[i] matches StoreUpdate::SetXp { playeruid, xp } ==> (
        playeruid == es[0].player1uid && xp > p1xp) || (playeruid == es[0].player2uid && xp > p2xp),
{
}

/// In a fight the more experienced player wins: the winner alone gains
/// experience, and the first side's record reports the win or the loss.
pub proof fn lemma_fight_goes_to_experience(es: Seq<PlayerEngagement>, p1xp: i32, p2xp: i32, uid: i64, coin: bool)
    requires
        es.len() == 2,
        es[0].state == state_code(State::Attack),
        es[1].state == state_code(State::Attack),
        p1xp != p2xp,
        settlement(es, p1xp, p2xp, uid, coin) is Some,
    ensures
        ({
            let (u, after) = settlement(es, p1xp, p2xp, uid, coin).unwrap();
            let winner = if p1xp > p2xp { es[0].player1uid } else { es[0].player2uid };
            &&& u[0] == StoreUpdate::SetXp {
                playeruid: winner,
                xp: ((if p1xp > p2xp { p1xp } else { p2xp }) + PLAYER_XP_GAIN_ATTACK) as i32,
            }
            &&& forall|j: int| 1 <= j < u.len() ==> !(u[j] is SetXp)
            &&& after[0].state == state_code(if p1xp > p2xp { State::WonFight } else { State::LostFight })
            &&& after[1].state == state_code(counterpart(state_of_code(after[0].state).unwrap()))
        }),
{
}

/// How two choices end an encounter, choice by choice: a run-away ends it
/// whatever the other chose; two attacks make a fight that the more
/// experienced side wins (the coin only on equal experience); two offers
/// of friendship make friends; an attack against an offer of friendship is
/// a robbery by the attacker; every other pair of choices (a side that has
/// not chosen yet, an unknown code) settles nothing.
pub proof fn lemma_resolution_by_choices(s0: i32, s1: i32, p1xp: i32, p2xp: i32, coin: bool)
    ensures
        ({
            let run = state_code(State::RunAway);
            let att = state_code(State::Attack);
            let bef = state_code(State::Befriend);
            let r = resolution_of(s0, s1, p1xp, p2xp, coin);
            &&& (r is RanAway) <==> (s0 == run || s1 == run)
            &&& (r matches Resolution::RanAway { first_ran } ==> first_ran == (s0 == run))
            &&& (r is Fight) <==> (s0 == att && s1 == att)
            &&& (r matches Resolution::Fight { first_won } ==> {
                &&& p1xp > p2xp ==> first_won
                &&& p1xp < p2xp ==> !first_won
                &&& p1xp == p2xp ==> first_won == coin
            })
            &&& (r is Friends) <==> (s0 == bef && s1 == bef)
            &&& (r is Robbery) <==> ((s0 == att && s1 == bef) || (s0 == bef && s1 == att))
            &&& (r matches Resolution::Robbery { first_robs } ==> first_robs == (s0 == att))
            &&& (r is Pending) <==> !(s0 == run || s1 == run || ((s0 == att || s0 == bef) && (s1 == att || s1 == bef)))
        }),
{
}

/// A side that has not chosen yet (or holds a code that is no choice)
/// keeps an encounter open: where neither side ran away and one side's
/// code is neither an attack nor an offer of friendship, settling writes
/// nothing and hands the engagements back unchanged.
pub proof fn lemma_undecided_settles_nothing(es: Seq<PlayerEngagement>, p1xp: i32, p2xp: i32, uid: i64, coin: bool)
    requires
        es.len() == 2,
        es[0].state != state_code(State::RunAway),
        es[1].state != state_code(State::RunAway),
        !(es[0].state == state_code(State::Attack) || es[0].state == state_code(State::Befriend))
            || !(es[1].state == state_code(State::Attack) || es[1].state == state_code(State::Befriend)),
    ensures
        settlement(es, p1xp, p2xp, uid, coin) == Some((Seq::<StoreUpdate>::empty(), es)),
{
    assert(resolution_updates(es[0], es[1], Resolution::Pending, p1xp, p2xp, uid) =~= Seq::<StoreUpdate>::empty());
    assert(resolved_engagements(es[0], es[1], Resolution::Pending) =~= es);
}

/// Health changes only for a requesting player robbed while offering
/// friendship: every health update of a settlement sets the requesting
/// player's health to 1, and comes only where its own side befriended and
/// the other side attacked.
pub proof fn lemma_health_only_for_robbed_requester(
    es: Seq<PlayerEngagement>,
    p1xp: i32,
    p2xp: i32,
    uid: i64,
    coin: bool,
    i: int,
)
    requires
        settlement(es, p1xp, p2xp, uid, coin) is Some,
        0 <= i < settlement(es, p1xp, p2xp, uid, coin).unwrap().0.len(),
    ensures
        settlement(es, p1xp, p2xp, uid, coin).unwrap().0[i] matches StoreUpdate::SetHealth { playeruid, health } ==> {
            &&& es.len() == 2
            &&& es[0].state == state_code(State::Befriend)
            &&& es[1].state == state_code(State::Attack)
            &&& playeruid == uid
            &&& health == 1
        },
{
}

/// A fight between two attackers settles in exactly three updates: the
/// winner (the more experienced side, the coin on a tie) gains the attack
/// award, the first side's record takes the win or loss and is closed, the
/// second side's record takes the opposite; both only where still active.
/// Nobody's health changes, and the reported engagements carry the outcome.
pub proof fn lemma_fight_settlement(es: Seq<PlayerEngagement>, p1xp: i32, p2xp: i32, uid: i64, coin: bool)
    requires
        es.len() == 2,
        es[0].state == state_code(State::Attack),
        es[1].state == state_code(State::Attack),
        settlement(es, p1xp, p2xp, uid, coin) is Some,
    ensures
        ({
            let (u, after) = settlement(es, p1xp, p2xp, uid, coin).unwrap();
            let first_won = if p1xp != p2xp { p1xp > p2xp } else { coin };
            let won = state_code(State::WonFight);
            let lost = state_code(State::LostFight);
            &&& u.len() == 3
            &&& u[0] == StoreUpdate::SetXp {
                playeruid: if first_won { es[0].player1uid } else { es[0].player2uid },
                xp: ((if first_won { p1xp } else { p2xp }) + PLAYER_XP_GAIN_ATTACK) as i32,
            }
            &&& u[1] == StoreUpdate::SetEngagementState {
                player1uid: es[0].player1uid,
                player2uid: es[0].player2uid,
                state: if first_won { won } else { lost },
                deactivate: true,
                only_active: true,
            }
            &&& u[2] == StoreUpdate::SetEngagementState {
                player1uid: es[1].player1uid,
                player2uid: es[1].player2uid,
                state: if first_won { lost } else { won },
                deactivate: false,
                only_active: true,
            }
            &&& after.len() == 2
            &&& after[0] == PlayerEngagement { state: if first_won { won } else { lost }, ..es[0] }
            &&& after[1] == PlayerEngagement { state: if first_won { lost } else { won }, ..es[1] }
        }),
{
}

/// Two offers of friendship reward both players with the befriend award and
/// end both records as befriended (closing the first); nobody's health
/// changes and the reported engagements are unchanged.
pub proof fn lemma_friends_settlement(es: Seq<PlayerEngagement>, p1xp: i32, p2xp: i32, uid: i64, coin: bool)
    requires
        es.len() == 2,
        es[0].state == state_code(State::Befriend),
        es[1].state == state_code(State::Befriend),
        settlement(es, p1xp, p2xp, uid, coin) is Some,
    ensures
        ({
            let (u, after) = settlement(es, p1xp, p2xp, uid, coin).unwrap();
            let both = state_code(State::BothBefriended);
            &&& u.len() == 4
            &&& u[0] == StoreUpdate::SetXp { playeruid: es[0].player1uid, xp: (p1xp + PLAYER_XP_GAIN_BEFRIEND) as i32 }
            &&& u[1] == StoreUpdate::SetXp { playeruid: es[0].player2uid, xp: (p2xp + PLAYER_XP_GAIN_BEFRIEND) as i32 }
            &&& u[2] == StoreUpdate::SetEngagementState {
                player1uid: es[0].player1uid,
                player2uid: es[0].player2uid,
                state: both,
                deactivate: true,
                only_active: false,
            }
            &&& u[3] == StoreUpdate::SetEngagementState {
                player1uid: es[1].player1uid,
                player2uid: es[1].player2uid,
                state: both,
                deactivate: false,
                only_active: false,
            }
            &&& after == es
        }),
{
    assert(settlement(es, p1xp, p2xp, uid, coin).unwrap().1 =~= es);
}

/// A robbery rewards only the attacker, with the one-sided attack award,
/// and ends the attacker's record as a successful robbery and the other as
/// robbed, closing the first side's record. Where the requesting player is
/// the one robbed, its health drops to 1 and only active records are
/// touched. The reported engagements are unchanged.
pub proof fn lemma_robbery_settlement(es: Seq<PlayerEngagement>, p1xp: i32, p2xp: i32, uid: i64, coin: bool)
    requires
        es.len() == 2,
        (es[0].state == state_code(State::Attack) && es[1].state == state_code(State::Befriend)) || (es[0].state
            == state_code(State::Befriend) && es[1].state == state_code(State::Attack)),
        settlement(es, p1xp, p2xp, uid, coin) is Some,
    ensures
        ({
            let (u, after) = settlement(es, p1xp, p2xp, uid, coin).unwrap();
            let success = state_code(State::RobbingSuccess);
            let robbed = state_code(State::Robbed);
            &&& after == es
            &&& es[0].state == state_code(State::Attack) ==> {
                &&& u.len() == 3
                &&& u[0] == StoreUpdate::SetXp {
                    playeruid: es[0].player1uid,
                    xp: (p1xp + PLAYER_XP_GAIN_ONESIDED_ATTACK) as i32,
                }
                &&& u[1] == StoreUpdate::SetEngagementState {
                    player1uid: es[0].player1uid,
                    player2uid: es[0].player2uid,
                    state: success,
                    deactivate: true,
                    only_active: false,
                }
                &&& u[2] == StoreUpdate::SetEngagementState {
                    player1uid: es[1].player1uid,
                    player2uid: es[1].player2uid,
                    state: robbed,
                    deactivate: false,
                    only_active: false,
                }
            }
            &&& es[0].state == state_code(State::Befriend) ==> {
                &&& u.len() == 4
                &&& u[0] == StoreUpdate::SetXp {
                    playeruid: es[0].player2uid,
                    xp: (p2xp + PLAYER_XP_GAIN_ONESIDED_ATTACK) as i32,
                }
                &&& u[1] == StoreUpdate::SetHealth { playeruid: uid, health: 1 }
                &&& u[2] == StoreUpdate::SetEngagementState {
                    player1uid: es[0].player1uid,
                    player2uid: es[0].player2uid,
                    state: robbed,
                    deactivate: true,
                    only_active: true,
                }
                &&& u[3] == StoreUpdate::SetEngagementState {
                    player1uid: es[1].player1uid,
                    player2uid: es[1].player2uid,
                    state: success,
                    deactivate: false,
                    only_active: true,
                }
            }
        }),
{
    assert(settlement(es, p1xp, p2xp, uid, coin).unwrap().1 =~= es);
}

/// Running away ends the encounter with no award and no health change: the
/// first side's record is closed as "we ran away" where it ran, "they ran
/// away" otherwise, and the second side's record takes the opposite.
pub proof fn lemma_run_away_settlement(es: Seq<PlayerEngagement>, p1xp: i32, p2xp: i32, uid: i64, coin: bool)
    requires
        es.len() == 2,
        es[0].state == state_code(State::RunAway) || es[1].state == state_code(State::RunAway),
    ensures
        ({
            let first_ran = es[0].state == state_code(State::RunAway);
            let we = state_code(State::WeRanAway);
            let they = state_code(State::TheyRanAway);
            settlement(es, p1xp, p2xp, uid, coin) == Some((
                seq![
                    StoreUpdate::SetEngagementState {
                        player1uid: es[0].player1uid,
                        player2uid: es[0].player2uid,
                        state: if first_ran { we } else { they },
                        deactivate: true,
                        only_active: false,
                    },
                    StoreUpdate::SetEngagementState {
                        player1uid: es[1].player1uid,
                        player2uid: es[1].player2uid,
                        state: if first_ran { they } else { we },
                        deactivate: false,
                        only_active: false,
                    },
                ],
                es,
            ))
        }),
{
    let r = resolution_of(es[0].state, es[1].state, p1xp, p2xp, coin);
    assert(resolved_engagements(es[0], es[1], r) =~= es);
}

/// Without two sides there is no encounter to resolve: a single side is
/// closed where it is the requesting player's own, and otherwise, as with
/// no side or more than two, nothing is written. The engagements come back
/// unchanged.
pub proof fn lemma_lone_side_settlement(es: Seq<PlayerEngagement>, p1xp: i32, p2xp: i32, uid: i64, coin: bool)
    requires
        es.len() != 2,
    ensures
        es.len() == 1 && es[0].player1uid == uid ==> settlement(es, p1xp, p2xp, uid, coin) == Some((
            seq![StoreUpdate::CloseEngagement { player1uid: es[0].player1uid, player2uid: es[0].player2uid }],
            es,
        )),
        !(es.len() == 1 && es[0].player1uid == uid) ==> settlement(es, p1xp, p2xp, uid, coin) == Some((
            Seq::<StoreUpdate>::empty(),
            es,
        )),
{
    assert(seq![] =~= Seq::<StoreUpdate>::empty());
}

} // verus!
