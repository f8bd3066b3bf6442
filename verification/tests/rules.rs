use disease::clock::{activity_cutoff, interaction_cutoff, millis_since_epoch, now_millis};
use disease::consts::{State, PLAYER_MAX_HEALTH, ZOMBIE_MAX_HEALTH};
use disease::database::{Engagement, PlayerEngagement, PlayerInfo};
use disease::duel::{resolve, settle_player_engagements, settle_player_engagements_with, Resolution, StoreUpdate};
use disease::nearby::{combine_engagements, reported_players, is_resting, last_xp, regenerated_health};
use disease::update::{
    player_info_to_create, read_interaction, read_player_interaction, read_uid, record_health, Interaction,
    PlayerInteractionError, UidError,
};
use disease::world::{
    pair_candidate, pair_step, roll_item_types, spawn_uids, zombie_engagement, zombie_may_move, PairStep,
};

fn side(p1: i64, p2: i64, state: State) -> PlayerEngagement {
    PlayerEngagement { player1uid: p1, player2uid: p2, timestamp: 1000, active: 1, state: state.code() }
}

fn set_state(p1: i64, p2: i64, state: State, deactivate: bool, only_active: bool) -> StoreUpdate {
    StoreUpdate::SetEngagementState { player1uid: p1, player2uid: p2, state: state.code(), deactivate, only_active }
}

#[test]
fn state_codes_roundtrip() {
    let all = [
        State::Idle,
        State::RunAway,
        State::Attack,
        State::Befriend,
        State::BothBefriended,
        State::WeRanAway,
        State::TheyRanAway,
        State::WonFight,
        State::LostFight,
        State::RobbingSuccess,
        State::Robbed,
    ];
    let codes = [0, 1, 2, 3, 42, 100, 101, 200, 201, 300, 301];
    for (s, c) in all.iter().zip(codes.iter()) {
        assert_eq!(s.code(), *c);
        assert_eq!(State::from_code(*c), Some(*s));
    }
    assert_eq!(State::from_code(4), None);
    assert_eq!(State::from_code(-1), None);
}

#[test]
fn uid_must_be_a_number() {
    assert_eq!(read_uid("42"), Ok(42));
    assert_eq!(read_uid("-7"), Ok(-7));
    assert_eq!(read_uid("+42"), Ok(42));
    assert_eq!(read_uid("-9223372036854775808"), Ok(i64::MIN));
    assert_eq!(read_uid("9223372036854775808"), Err(UidError::NotANumber));
    assert_eq!(read_uid("-"), Err(UidError::NotANumber));
    assert_eq!(read_uid(" 42"), Err(UidError::NotANumber));
    assert_eq!(read_uid("4_2"), Err(UidError::NotANumber));
    assert_eq!(read_uid("abc"), Err(UidError::NotANumber));
    assert_eq!(read_uid(""), Err(UidError::NotANumber));
}

#[test]
fn negative_reported_health_falls_back() {
    let infos = vec![PlayerInfo { playeruid: 1, xp: 0, health: 40 }, PlayerInfo { playeruid: 1, xp: 5, health: 70 }];
    assert_eq!(record_health(-1, &infos), 70);
    assert_eq!(record_health(-1, &vec![]), 100);
    assert_eq!(record_health(0, &infos), 0);
    assert_eq!(record_health(55, &infos), 55);
}

#[test]
fn first_update_creates_player_info() {
    assert_eq!(player_info_to_create(9, &vec![]), Some(PlayerInfo { playeruid: 9, xp: 0, health: 100 }));
    let infos = vec![PlayerInfo { playeruid: 9, xp: 3, health: 20 }];
    assert_eq!(player_info_to_create(9, &infos), None);
}

#[test]
fn interactions_are_clamped() {
    assert_eq!(
        read_interaction(&vec![7, -5, 500]),
        Some(Interaction { zombieuid: 7, zombie_health: 0, player_health: PLAYER_MAX_HEALTH })
    );
    assert_eq!(
        read_interaction(&vec![8, 1000, -1]),
        Some(Interaction { zombieuid: 8, zombie_health: ZOMBIE_MAX_HEALTH, player_health: 0 })
    );
    assert_eq!(read_interaction(&vec![8, 30, 60]), Some(Interaction { zombieuid: 8, zombie_health: 30, player_health: 60 }));
    // the health is taken as an i32 first: 2^32 + 50 has low bits 50
    assert_eq!(
        read_interaction(&vec![1, (1i64 << 32) + 50, 20]),
        Some(Interaction { zombieuid: 1, zombie_health: 50, player_health: 20 })
    );
    assert_eq!(read_interaction(&vec![1, 2]), None);
    assert_eq!(read_interaction(&vec![1, 2, 3, 4]), None);
}

#[test]
fn player_interactions_are_read() {
    assert_eq!(read_player_interaction(&vec!["12".to_string(), "2".to_string()]), Some(Ok((12, 2))));
    assert_eq!(
        read_player_interaction(&vec!["x".to_string(), "2".to_string()]),
        Some(Err(PlayerInteractionError::BadUid))
    );
    assert_eq!(
        read_player_interaction(&vec!["12".to_string(), "attack".to_string()]),
        Some(Err(PlayerInteractionError::BadState))
    );
    // the state must fit in an i32
    assert_eq!(
        read_player_interaction(&vec!["12".to_string(), "3000000000".to_string()]),
        Some(Err(PlayerInteractionError::BadState))
    );
    assert_eq!(read_player_interaction(&vec!["12".to_string()]), None);
}

#[test]
fn resolution_table() {
    let run = State::RunAway.code();
    let att = State::Attack.code();
    let bef = State::Befriend.code();
    let idle = State::Idle.code();
    assert_eq!(resolve(run, att, 0, 0, false), Resolution::RanAway { first_ran: true });
    assert_eq!(resolve(att, run, 0, 0, false), Resolution::RanAway { first_ran: false });
    assert_eq!(resolve(att, att, 5, 3, false), Resolution::Fight { first_won: true });
    assert_eq!(resolve(att, att, 3, 5, true), Resolution::Fight { first_won: false });
    assert_eq!(resolve(att, att, 4, 4, true), Resolution::Fight { first_won: true });
    assert_eq!(resolve(att, att, 4, 4, false), Resolution::Fight { first_won: false });
    assert_eq!(resolve(bef, bef, 0, 0, false), Resolution::Friends);
    assert_eq!(resolve(att, bef, 0, 0, false), Resolution::Robbery { first_robs: true });
    assert_eq!(resolve(bef, att, 0, 0, false), Resolution::Robbery { first_robs: false });
    assert_eq!(resolve(idle, att, 0, 0, false), Resolution::Pending);
}

#[test]
fn fight_goes_to_more_experienced() {
    let mut es = vec![side(1, 2, State::Attack), side(2, 1, State::Attack)];
    let updates = settle_player_engagements(&mut es, 10, 5, 1).unwrap();
    assert_eq!(
        updates,
        vec![
            StoreUpdate::SetXp { playeruid: 1, xp: 110 },
            set_state(1, 2, State::WonFight, true, true),
            set_state(2, 1, State::LostFight, false, true),
        ]
    );
    assert_eq!(es[0].state, State::WonFight.code());
    assert_eq!(es[1].state, State::LostFight.code());

    let mut es = vec![side(1, 2, State::Attack), side(2, 1, State::Attack)];
    let updates = settle_player_engagements(&mut es, 5, 10, 1).unwrap();
    assert_eq!(updates[0], StoreUpdate::SetXp { playeruid: 2, xp: 110 });
    assert_eq!(es[0].state, State::LostFight.code());
    assert_eq!(es[1].state, State::WonFight.code());
}

#[test]
fn tied_fight_has_one_winner() {
    let mut es = vec![side(1, 2, State::Attack), side(2, 1, State::Attack)];
    let updates = settle_player_engagements(&mut es, 7, 7, 1).unwrap();
    assert_eq!(updates.len(), 3);
    let winner_first = es[0].state == State::WonFight.code();
    if winner_first {
        assert_eq!(updates[0], StoreUpdate::SetXp { playeruid: 1, xp: 107 });
        assert_eq!(es[1].state, State::LostFight.code());
    } else {
        assert_eq!(updates[0], StoreUpdate::SetXp { playeruid: 2, xp: 107 });
        assert_eq!(es[0].state, State::LostFight.code());
        assert_eq!(es[1].state, State::WonFight.code());
    }
}

#[test]
fn coin_decides_only_ties() {
    for coin in [true, false] {
        let mut es = vec![side(1, 2, State::Attack), side(2, 1, State::Attack)];
        let updates = settle_player_engagements_with(&mut es, 7, 7, 1, coin).unwrap();
        let winner = if coin { 1 } else { 2 };
        assert_eq!(updates[0], StoreUpdate::SetXp { playeruid: winner, xp: 107 });
    }
    let mut a = vec![side(1, 2, State::Befriend), side(2, 1, State::Attack)];
    let mut b = a.clone();
    assert_eq!(
        settle_player_engagements_with(&mut a, 7, 7, 1, true),
        settle_player_engagements_with(&mut b, 7, 7, 1, false)
    );
}

#[test]
fn running_away_mirrors() {
    let mut es = vec![side(1, 2, State::RunAway), side(2, 1, State::Attack)];
    let updates = settle_player_engagements(&mut es, 0, 0, 1).unwrap();
    assert_eq!(
        updates,
        vec![set_state(1, 2, State::WeRanAway, true, false), set_state(2, 1, State::TheyRanAway, false, false)]
    );
    assert_eq!(es, vec![side(1, 2, State::RunAway), side(2, 1, State::Attack)]);

    let mut es = vec![side(1, 2, State::Befriend), side(2, 1, State::RunAway)];
    let updates = settle_player_engagements(&mut es, 0, 0, 1).unwrap();
    assert_eq!(
        updates,
        vec![set_state(1, 2, State::TheyRanAway, true, false), set_state(2, 1, State::WeRanAway, false, false)]
    );
}

#[test]
fn befriending_rewards_both() {
    let mut es = vec![side(1, 2, State::Befriend), side(2, 1, State::Befriend)];
    let updates = settle_player_engagements(&mut es, 3, 4, 1).unwrap();
    assert_eq!(
        updates,
        vec![
            StoreUpdate::SetXp { playeruid: 1, xp: 103 },
            StoreUpdate::SetXp { playeruid: 2, xp: 104 },
            set_state(1, 2, State::BothBefriended, true, false),
            set_state(2, 1, State::BothBefriended, false, false),
        ]
    );
}

#[test]
fn robbery_both_ways() {
    let mut es = vec![side(1, 2, State::Attack), side(2, 1, State::Befriend)];
    let updates = settle_player_engagements(&mut es, 3, 4, 1).unwrap();
    assert_eq!(
        updates,
        vec![
            StoreUpdate::SetXp { playeruid: 1, xp: 103 },
            set_state(1, 2, State::RobbingSuccess, true, false),
            set_state(2, 1, State::Robbed, false, false),
        ]
    );
    let mut es = vec![side(1, 2, State::Befriend), side(2, 1, State::Attack)];
    let updates = settle_player_engagements(&mut es, 3, 4, 1).unwrap();
    assert_eq!(
        updates,
        vec![
            StoreUpdate::SetXp { playeruid: 2, xp: 104 },
            StoreUpdate::SetHealth { playeruid: 1, health: 1 },
            set_state(1, 2, State::Robbed, true, true),
            set_state(2, 1, State::RobbingSuccess, false, true),
        ]
    );
}

#[test]
fn pending_and_single_sides() {
    let mut es = vec![side(1, 2, State::Idle), side(2, 1, State::Attack)];
    assert_eq!(settle_player_engagements(&mut es, 0, 0, 1), Some(vec![]));
    let mut es = vec![side(1, 2, State::Attack)];
    assert_eq!(
        settle_player_engagements(&mut es, 0, 0, 1),
        Some(vec![StoreUpdate::CloseEngagement { player1uid: 1, player2uid: 2 }])
    );
    let mut es = vec![side(2, 1, State::Attack)];
    assert_eq!(settle_player_engagements(&mut es, 0, 0, 1), Some(vec![]));
    let mut es = vec![];
    assert_eq!(settle_player_engagements(&mut es, 0, 0, 1), Some(vec![]));
}

#[test]
fn xp_award_overflow_is_refused() {
    let before = vec![side(1, 2, State::Attack), side(2, 1, State::Attack)];
    let mut es = before.clone();
    assert_eq!(settle_player_engagements(&mut es, i32::MAX, 5, 1), None);
    assert_eq!(es, before);
}

#[test]
fn last_xp_reads_latest() {
    assert_eq!(last_xp(&vec![]), 0);
    let infos = vec![PlayerInfo { playeruid: 1, xp: 3, health: 1 }, PlayerInfo { playeruid: 1, xp: 9, health: 1 }];
    assert_eq!(last_xp(&infos), 9);
}

#[test]
fn resting_regenerates() {
    assert_eq!(regenerated_health(&vec![]), Some(10));
    assert_eq!(regenerated_health(&vec![PlayerInfo { playeruid: 1, xp: 0, health: 50 }]), Some(60));
    assert_eq!(regenerated_health(&vec![PlayerInfo { playeruid: 1, xp: 0, health: 95 }]), Some(100));
    assert_eq!(regenerated_health(&vec![PlayerInfo { playeruid: 1, xp: 0, health: 100 }]), Some(100));
    assert_eq!(regenerated_health(&vec![PlayerInfo { playeruid: 1, xp: 0, health: i32::MAX }]), None);
    assert!(is_resting(&vec![], &vec![]));
    let e = Engagement { playeruid: 1, zombieuid: 2, timestamp: 0, active: 1, accepted: 0 };
    assert!(!is_resting(&vec![], &vec![e]));
    assert!(!is_resting(&vec![side(1, 2, State::Idle)], &vec![]));
}

#[test]
fn all_nearby_players_are_reported() {
    assert_eq!(reported_players(vec!["a", "b"]), vec!["a", "b"]);
    assert_eq!(reported_players(Vec::<&str>::new()), Vec::<&str>::new());
}

#[test]
fn combined_keeps_own_first() {
    let a = vec![side(1, 2, State::Attack)];
    let b = vec![side(2, 1, State::Befriend)];
    assert_eq!(combine_engagements(a, b), vec![side(1, 2, State::Attack), side(2, 1, State::Befriend)]);
}

#[test]
fn milliseconds_and_cutoffs() {
    assert_eq!(millis_since_epoch(2, 345_678_901), Some(2345));
    assert_eq!(millis_since_epoch(-2, 800_000_000), Some(-1200));
    assert_eq!(millis_since_epoch(i64::MAX, 0), None);
    let now = now_millis().unwrap();
    assert!(now > 1_500_000_000_000);
    assert_eq!(activity_cutoff(100_000), Some(40_000));
    assert_eq!(activity_cutoff(i64::MIN), None);
    assert_eq!(interaction_cutoff(70_000), Some(10_000));
    assert_eq!(interaction_cutoff(i64::MIN + 10), None);
}

#[test]
fn zombie_engagements_need_two_free_parties() {
    assert_eq!(
        zombie_engagement(1, 2, 500, false, false),
        Some(Engagement { playeruid: 1, zombieuid: 2, timestamp: 500, active: 1, accepted: 0 })
    );
    assert_eq!(zombie_engagement(1, 2, 500, true, false), None);
    assert_eq!(zombie_engagement(1, 2, 500, false, true), None);
    assert!(zombie_may_move(&vec![]));
    assert!(!zombie_may_move(&vec![Engagement { playeruid: 1, zombieuid: 2, timestamp: 0, active: 1, accepted: 0 }]));
}

#[test]
fn new_player_encounters_are_mirrored() {
    assert_eq!(pair_step(1, 2, 500, true, false), PairStep::KeepLooking);
    assert_eq!(pair_step(1, 1, 500, false, false), PairStep::KeepLooking);
    assert!(pair_candidate(1, 2, true));
    assert!(!pair_candidate(1, 1, true));
    assert!(!pair_candidate(1, 2, false));
    assert_eq!(pair_step(1, 2, 500, false, true), PairStep::Stop);
    match pair_step(1, 2, 500, false, false) {
        PairStep::Engage(a, b) => {
            assert_eq!(a, PlayerEngagement { player1uid: 1, player2uid: 2, timestamp: 500, active: 1, state: 0 });
            assert_eq!(b, PlayerEngagement { player1uid: 2, player2uid: 1, timestamp: 500, active: 1, state: 0 });
        }
        other => panic!("unexpected {:?}", other),
    }
}

#[test]
fn spawn_uids_continue_after_newest() {
    assert_eq!(spawn_uids(&vec![], 5), Some(vec![0, 1, 2, 3, 4]));
    assert_eq!(spawn_uids(&vec![41], 3), Some(vec![42, 43, 44]));
    assert_eq!(spawn_uids(&vec![41], 0), Some(vec![]));
    assert_eq!(spawn_uids(&vec![i64::MAX], 1), None);
    assert_eq!(spawn_uids(&vec![i64::MAX - 3], 5), None);
}

#[test]
fn item_types_in_range() {
    let types = roll_item_types(200);
    assert_eq!(types.len(), 200);
    assert!(types.iter().all(|t| *t == 0 || *t == 1));
    assert!(types.iter().any(|t| *t == 0));
    assert!(types.iter().any(|t| *t == 1));
}
