use vstd::prelude::*;
use crate::consts::{PLAYER_MAX_HEALTH, ZOMBIE_MAX_HEALTH};
use crate::database::PlayerInfo;

verus! {

/// Whether `c` is one of the ASCII digits `0` to `9`.
pub open spec fn is_decimal_digit(c: char) -> bool {
    '0' <= c && c <= '9'
}

/// The value of a run of decimal digits, most significant first.
pub open spec fn digits_value(ds: Seq<char>) -> int
    decreases ds.len(),
{
    if ds.len() == 0 {
        0
    } else {
        digits_value(ds.drop_last()) * 10 + ((ds.last() as u32) - ('0' as u32))
    }
}

/// The integer that a text spells in the grammar of std's integer
/// `FromStr`: an optional `+` or `-` followed by one or more ASCII digits,
/// with nothing before or after; `None` for any other text.
pub open spec fn decimal_of(s: Seq<char>) -> Option<int> {
    let signed = s.len() > 0 && (s[0] == '-' || s[0] == '+');
    let body = if signed { s.drop_first() } else { s };
    if body.len() > 0 && forall|i: int| 0 <= i < body.len() ==> is_decimal_digit(#[trigger] body[i]) {
        Some(if signed && s[0] == '-' { -digits_value(body) } else { digits_value(body) })
    } else {
        None
    }
}

/// What `str::parse::<i64>` makes of a text: the integer it spells, where
/// that fits in an `i64`, or `None`.
pub open spec fn parsed_i64(s: Seq<char>) -> Option<i64> {
    match decimal_of(s) {
        Some(v) => if i64::MIN <= v <= i64::MAX { Some(v as i64) } else { None },
        None => None,
    }
}

/// What `str::parse::<i32>` makes of a text: the integer it spells, where
/// that fits in an `i32`, or `None`.
pub open spec fn parsed_i32(s: Seq<char>) -> Option<i32> {
    match decimal_of(s) {
        Some(v) => if i32::MIN <= v <= i32::MAX { Some(v as i32) } else { None },
        None => None,
    }
}

/// A fight report keeps every health that is already within bounds and
/// moves any other to the nearer bound (after taking the reported number's
/// low 32 bits); it names the zombie it was sent for, and exists only for
/// exactly three fields.
pub proof fn lemma_interaction_keeps_sound_healths(fields: Seq<i64>)
    ensures
        (interaction_of(fields) is Some) <==> fields.len() == 3,
        interaction_of(fields) matches Some(it) ==> {
            let z = fields[1] as i32;
            let h = fields[2] as i32;
            &&& it.zombieuid == fields[0]
            &&& 0 <= z <= ZOMBIE_MAX_HEALTH ==> it.zombie_health == z
            &&& z > ZOMBIE_MAX_HEALTH ==> it.zombie_health == ZOMBIE_MAX_HEALTH
            &&& z < 0 ==> it.zombie_health == 0
            &&& 0 <= h <= PLAYER_MAX_HEALTH ==> it.player_health == h
            &&& h > PLAYER_MAX_HEALTH ==> it.player_health == PLAYER_MAX_HEALTH
            &&& h < 0 ==> it.player_health == 0
        },
{
}

/// A player interaction report is read only from exactly two fields; it
/// succeeds exactly where the first spells an `i64` and the second an
/// `i32`, and otherwise names the first field that fails.
pub proof fn lemma_player_interaction_cases(fields: Seq<Seq<char>>)
    ensures
        (player_interaction_of(fields) is Some) <==> fields.len() == 2,
        fields.len() == 2 ==> {
            &&& (parsed_i64(fields[0]) is Some && parsed_i32(fields[1]) is Some) ==> player_interaction_of(fields)
                == Some(Ok::<(i64, i32), PlayerInteractionError>((parsed_i64(fields[0]).unwrap(), parsed_i32(fields[1]).unwrap())))
            &&& parsed_i64(fields[0]) is None ==> player_interaction_of(fields) == Some(
                Err::<(i64, i32), PlayerInteractionError>(PlayerInteractionError::BadUid),
            )
            &&& (parsed_i64(fields[0]) is Some && parsed_i32(fields[1]) is None) ==> player_interaction_of(fields)
                == Some(Err::<(i64, i32), PlayerInteractionError>(PlayerInteractionError::BadState))
        },
{
}

/// The integer reading follows the decimal notation: a single digit reads
/// as its value, a leading `+` changes nothing, a leading `-` negates, and
/// appending a digit multiplies by ten and adds it.
pub proof fn lemma_decimal_notation(ds: Seq<char>, d: char)
    requires
        ds.len() > 0,
        forall|i: int| 0 <= i < ds.len() ==> is_decimal_digit(#[trigger] ds[i]),
        is_decimal_digit(d),
    ensures
        decimal_of(ds) == Some(digits_value(ds)),
        decimal_of(seq!['+'] + ds) == decimal_of(ds),
        decimal_of(seq!['-'] + ds) == Some(-digits_value(ds)),
        digits_value(ds.push(d)) == digits_value(ds) * 10 + (d as u32 - '0' as u32),
        digits_value(seq![d]) == d as u32 - '0' as u32,
        digits_value(ds) >= 0,
    decreases ds.len(),
{
    assert((seq!['+'] + ds).drop_first() =~= ds);
    assert((seq!['-'] + ds).drop_first() =~= ds);
    assert(ds.push(d).drop_last() =~= ds);
    assert(seq![d].drop_last() =~= Seq::<char>::empty());
    assert(digits_value(Seq::<char>::empty()) == 0);
    assert(digits_value(seq![d]) == d as u32 - '0' as u32);
    assert(is_decimal_digit(ds[ds.len() - 1]));
    if ds.len() > 1 {
        let front = ds.drop_last();
        lemma_decimal_notation(front, ds.last());
    } else {
        assert(ds.drop_last() =~= Seq::<char>::empty());
    }
}

/// Calls `str::parse::<i64>` (std's `FromStr for i64`) and keeps the number
/// or drops the error. Claimed, as std documents for integer parsing: an
/// optional sign and then only ASCII digits, in range, give the number;
/// any other text gives an error ([`parsed_i64`]).
#[verifier::external_body]
fn parse_i64(s: &str) -> (r: Option<i64>)
    ensures
        r == parsed_i64(s@),
{
    s.parse::<i64>().ok()
}

/// Calls `str::parse::<i32>` (std's `FromStr for i32`) and keeps the number
/// or drops the error. Claimed, as std documents for integer parsing: an
/// optional sign and then only ASCII digits, in range, give the number;
/// any other text gives an error ([`parsed_i32`]).
#[verifier::external_body]
fn parse_i32(s: &str) -> (r: Option<i32>)
    ensures
        r == parsed_i32(s@),
{
    s.parse::<i32>().ok()
}

/// Why the uid of an update request was refused.
#[derive(Clone, Copy, Debug, PartialEq, Eq, Structural)]
pub enum UidError {
    /// The uid in the request path is not a number.
    NotANumber,
}

/// Reads the player uid from the request path: the number it spells, or
/// [`UidError::NotANumber`] where it spells none.
pub fn read_uid(uid: &str) -> (r: Result<i64, UidError>)
    ensures
        r == (match parsed_i64(uid@) {
            Some(n) => Ok(n),
            None => Err(UidError::NotANumber),
        }),
{
    match parse_i64(uid) {
        Some(n) => Ok(n),
        None => Err(UidError::NotANumber),
    }
}

/// The health stored with a position record: the reported health, or where
/// the client reports a negative health, the last stored health of the
/// player, or 100 where none is stored.
pub open spec fn record_health_of(reported: i32, infos: Seq<PlayerInfo>) -> i32 {
    if reported < 0 {
        if infos.len() == 0 {
            100
        } else {
            infos.last().health
        }
    } else {
        reported
    }
}

/// The health to store with a position record, as [`record_health_of`] says.
pub fn record_health(reported: i32, infos: &Vec<PlayerInfo>) -> (r: i32)
    ensures
        r == record_health_of(reported, infos@),
{
    if reported < 0 {
        match infos.last() {
            Some(x) => x.health,
            None => 100,
        }
    } else {
        reported
    }
}

/// The client's report wins whenever it is a health at all: a reported
/// health that is not negative is stored as reported; only a negative one
/// is replaced, by the last stored health, or 100 where none is stored.
pub proof fn lemma_reported_health_kept(reported: i32, infos: Seq<PlayerInfo>)
    ensures
        reported >= 0 ==> record_health_of(reported, infos) == reported,
        reported < 0 ==> record_health_of(reported, infos) == (if infos.len() == 0 {
            100
        } else {
            infos[infos.len() - 1].health
        }),
{
}

/// The info to create for player `uid` on its first update: with no
/// experience and full health, and only where none is stored yet.
pub fn player_info_to_create(uid: i64, infos: &Vec<PlayerInfo>) -> (r: Option<PlayerInfo>)
    ensures
        infos@.len() == 0 ==> r == Some(PlayerInfo { playeruid: uid, xp: 0, health: 100 }),
        infos@.len() != 0 ==> r is None,
{
    if infos.len() == 0 {
        Some(PlayerInfo { playeruid: uid, xp: 0, health: 100 })
    } else {
        None
    }
}

/// A fight report from the client: the zombie fought and both healths
/// after the exchange.
#[derive(Clone, Copy, Debug, PartialEq, Eq, Structural)]
pub struct Interaction {
    pub zombieuid: i64,
    pub zombie_health: i32,
    pub player_health: i32,
}

/// The health reported as `v`, taken as an `i32` (its low 32 bits) and
/// clamped to `0..=max`.
pub open spec fn clamped_health(v: i64, max: i32) -> i32 {
    let n = v as i32;
    if n > max {
        max
    } else if n < 0 {
        0
    } else {
        n
    }
}

/// The fight report that the fields `[zombie uid, zombie health, player
/// health]` stand for; fields of any other count stand for none.
pub open spec fn interaction_of(fields: Seq<i64>) -> Option<Interaction> {
    if fields.len() == 3 {
        Some(
            Interaction {
                zombieuid: fields[0],
                zombie_health: clamped_health(fields[1], ZOMBIE_MAX_HEALTH),
                player_health: clamped_health(fields[2], PLAYER_MAX_HEALTH),
            },
        )
    } else {
        None
    }
}

fn clamp_health(v: i64, max: i32) -> (r: i32)
    requires
        max >= 0,
    ensures
        r == clamped_health(v, max),
{
    let n = v as i32;
    if n > max {
        max
    } else if n < 0 {
        0
    } else {
        n
    }
}

/// Reads a fight report as [`interaction_of`] says.
pub fn read_interaction(fields: &Vec<i64>) -> (r: Option<Interaction>)
    ensures
        r == interaction_of(fields@),
{
    if fields.len() == 3 {
        Some(
            Interaction {
                zombieuid: fields[0],
                zombie_health: clamp_health(fields[1], ZOMBIE_MAX_HEALTH),
                player_health: clamp_health(fields[2], PLAYER_MAX_HEALTH),
            },
        )
    } else {
        None
    }
}

/// Reported healths always end up within bounds: a fight report never
/// carries a negative health or one above the maximum.
pub proof fn lemma_interaction_health_bounded(fields: Seq<i64>)
    requires
        interaction_of(fields) is Some,
    ensures
        0 <= interaction_of(fields).unwrap().zombie_health <= ZOMBIE_MAX_HEALTH,
        0 <= interaction_of(fields).unwrap().player_health <= PLAYER_MAX_HEALTH,
{
}

/// Why a player interaction report could not be read.
#[derive(Clone, Copy, Debug, PartialEq, Eq, Structural)]
pub enum PlayerInteractionError {
    /// The other player's uid is not a number.
    BadUid,
    /// The chosen state is not a number.
    BadState,
}

/// The player interaction that the fields `[other player's uid, chosen
/// state code]` stand for: `None` for fields of any other count, otherwise
/// the two numbers, or the first field that spells no number.
pub open spec fn player_interaction_of(fields: Seq<Seq<char>>) -> Option<Result<(i64, i32), PlayerInteractionError>> {
    if fields.len() == 2 {
        Some(
            match parsed_i64(fields[0]) {
                None => Err(PlayerInteractionError::BadUid),
                Some(id) => match parsed_i32(fields[1]) {
                    None => Err(PlayerInteractionError::BadState),
                    Some(state) => Ok((id, state)),
                },
            },
        )
    } else {
        None
    }
}

/// Reads a player interaction report as [`player_interaction_of`] says.
pub fn read_player_interaction(fields: &Vec<String>) -> (r: Option<Result<(i64, i32), PlayerInteractionError>>)
    ensures
        r == player_interaction_of(fields@.map_values(|f: String| f@)),
{
    if fields.len() == 2 {
        let id = parse_i64(fields[0].as_str());
        match id {
            None => Some(Err(PlayerInteractionError::BadUid)),
            Some(id) => match parse_i32(fields[1].as_str()) {
                None => Some(Err(PlayerInteractionError::BadState)),
                Some(state) => Some(Ok((id, state))),
            },
        }
    } else {
        None
    }
}

} // verus!
