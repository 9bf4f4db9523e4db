//! The payloads that the map server sends, read field by field.
use vstd::prelude::*;
use crate::bytes::{le16, le32, le64};
use crate::enums::StatusPoint;
use crate::helper::{decode_pos, pos_dir, pos_x, pos_y};
use crate::input_message::{DecodeError, InputMessage, latin1, until_nul};
use crate::session::PhaseError;

verus! {

/// The map server's acceptance: its clock, where the character stands, and the font.
#[derive(Debug, Clone, Copy, PartialEq, Eq, Structural)]
pub struct GameAuthOk {
    pub client_tick: u32,
    pub x: u16,
    pub y: u16,
    pub dir: u8,
    pub font: u16,
}

/// Reads the map server's acceptance: clock, packed position, two unknown bytes, font.
pub fn game_auth_ok(data: &mut InputMessage) -> (r: Result<GameAuthOk, DecodeError>)
    requires
        old(data).wf(),
    ensures
        final(data).wf(),
        final(data).bytes() == old(data).bytes(),
        match r {
            Ok(a) => {
                let b = old(data).bytes();
                let s = old(data).pos();
                &&& old(data).has(11)
                &&& a == (GameAuthOk {
                    client_tick: le32(b, s) as u32,
                    x: pos_x(b[s + 4], b[s + 5]),
                    y: pos_y(b[s + 5], b[s + 6]),
                    dir: pos_dir(b[s + 6]),
                    font: le16(b, s + 9) as u16,
                })
            },
            Err(e) => !old(data).has(11) && e == DecodeError::OutOfBounds,
        },
        r is Ok ==> final(data).pos() == old(data).pos() + 11,
        r is Err ==> final(data).pos() == old(data).pos(),
{
    if data.remaining() < 11 {
        return Err(DecodeError::OutOfBounds);
    }
    let client_tick = data.read_u32().unwrap();
    let (x, y, dir) = crate::helper::read_pos(data).unwrap();
    let _unknown1 = data.read_u8().unwrap();
    let _unknown2 = data.read_u8().unwrap();
    let font = data.read_u16().unwrap();
    Ok(GameAuthOk { client_tick, x, y, dir, font })
}

/// Reads a message that fills the rest of the payload.
pub fn game_display_message(data: &mut InputMessage) -> (r: String)
    requires
        old(data).wf(),
    ensures
        final(data).wf(),
        final(data).bytes() == old(data).bytes(),
        r@ == latin1(until_nul(old(data).rest())),
        final(data).pos() == old(data).bytes().len(),
{
    let n = data.remaining();
    assert(old(data).rest() =~= old(data).bytes().subrange(old(data).pos(), old(data).pos() + n));
    data.read_string(Some(n)).unwrap()
}

/// A change of map: its name and the cell the character lands on.
#[derive(Debug, Clone, PartialEq, Eq)]
pub struct ChangeMap {
    pub map_name: String,
    pub x: u16,
    pub y: u16,
}

/// Reads a change of map: a name of 16 bytes and two coordinates.
pub fn game_change_map(data: &mut InputMessage) -> (r: Result<ChangeMap, DecodeError>)
    requires
        old(data).wf(),
    ensures
        final(data).wf(),
        final(data).bytes() == old(data).bytes(),
        match r {
            Ok(c) => {
                let b = old(data).bytes();
                let s = old(data).pos();
                &&& old(data).has(20)
                &&& c.map_name@ == latin1(until_nul(b.subrange(s, s + 16)))
                &&& c.x == le16(b, s + 16)
                &&& c.y == le16(b, s + 18)
            },
            Err(e) => !old(data).has(20) && e == DecodeError::OutOfBounds,
        },
        r is Ok ==> final(data).pos() == old(data).pos() + 20,
        r is Err ==> final(data).pos() == old(data).pos(),
{
    if data.remaining() < 20 {
        return Err(DecodeError::OutOfBounds);
    }
    let map_name = data.read_string(Some(16)).unwrap();
    let x = data.read_u16().unwrap();
    let y = data.read_u16().unwrap();
    Ok(ChangeMap { map_name, x, y })
}

/// The statuses whose change carries a four-byte value.
pub open spec fn has_param_value(t: StatusPoint) -> bool {
    matches!(t, StatusPoint::SpWeight | StatusPoint::SpMaxweight | StatusPoint::SpSpeed
        | StatusPoint::SpBaselevel | StatusPoint::SpJoblevel | StatusPoint::SpKarma
        | StatusPoint::SpManner | StatusPoint::SpStatuspoint | StatusPoint::SpSkillpoint
        | StatusPoint::SpHit | StatusPoint::SpFlee1 | StatusPoint::SpFlee2 | StatusPoint::SpMaxhp
        | StatusPoint::SpMaxsp | StatusPoint::SpHp | StatusPoint::SpSp | StatusPoint::SpAspd
        | StatusPoint::SpAtk1 | StatusPoint::SpDef1 | StatusPoint::SpMdef1 | StatusPoint::SpAtk2
        | StatusPoint::SpDef2 | StatusPoint::SpMdef2 | StatusPoint::SpCritical
        | StatusPoint::SpMatk1 | StatusPoint::SpMatk2)
}

fn carries_param_value(t: StatusPoint) -> (r: bool)
    ensures
        r == has_param_value(t),
{
    match t {
        StatusPoint::SpWeight | StatusPoint::SpMaxweight | StatusPoint::SpSpeed
        | StatusPoint::SpBaselevel | StatusPoint::SpJoblevel | StatusPoint::SpKarma
        | StatusPoint::SpManner | StatusPoint::SpStatuspoint | StatusPoint::SpSkillpoint
        | StatusPoint::SpHit | StatusPoint::SpFlee1 | StatusPoint::SpFlee2 | StatusPoint::SpMaxhp
        | StatusPoint::SpMaxsp | StatusPoint::SpHp | StatusPoint::SpSp | StatusPoint::SpAspd
        | StatusPoint::SpAtk1 | StatusPoint::SpDef1 | StatusPoint::SpMdef1 | StatusPoint::SpAtk2
        | StatusPoint::SpDef2 | StatusPoint::SpMdef2 | StatusPoint::SpCritical
        | StatusPoint::SpMatk1 | StatusPoint::SpMatk2 => true,
        _ => false,
    }
}

/// What a parameter change payload at `s` of `b` gives: the status and, for statuses that
/// carry one, its value; or why it cannot be read.
pub open spec fn param_change_of(b: Seq<u8>, s: int) -> Result<(StatusPoint, Option<u32>), PhaseError> {
    if s + 2 > b.len() {
        Err(PhaseError::Decode(DecodeError::OutOfBounds))
    } else {
        let code = le16(b, s) as u16;
        match StatusPoint::spec_from_code(code) {
            None => Err(PhaseError::InvalidStatus(code)),
            Some(t) => if !has_param_value(t) {
                Ok((t, None))
            } else if s + 6 > b.len() {
                Err(PhaseError::Decode(DecodeError::OutOfBounds))
            } else {
                Ok((t, Some(le32(b, s + 2) as u32)))
            },
        }
    }
}

/// Reads a parameter change: a status code, then a four-byte value for the statuses that
/// carry one. An unknown status code is an error.
pub fn game_param_change(data: &mut InputMessage) -> (r: Result<(StatusPoint, Option<u32>), PhaseError>)
    requires
        old(data).wf(),
    ensures
        final(data).wf(),
        final(data).bytes() == old(data).bytes(),
        r == param_change_of(old(data).bytes(), old(data).pos()),
        r is Ok ==> final(data).pos() == old(data).pos() + if r->Ok_0.1 is Some {
            6int
        } else {
            2int
        },
        final(data).pos() <= old(data).pos() + 6,
{
    let code = match data.read_u16() {
        Ok(c) => c,
        Err(e) => return Err(PhaseError::Decode(e)),
    };
    match StatusPoint::from_code(code) {
        None => Err(PhaseError::InvalidStatus(code)),
        Some(t) => {
            if carries_param_value(t) {
                match data.read_u32() {
                    Ok(v) => Ok((t, Some(v))),
                    Err(e) => Err(PhaseError::Decode(e)),
                }
            } else {
                Ok((t, None))
            }
        },
    }
}

/// The statuses whose couple status carries a value and a bonus: the base and the
/// fourth-job stats.
pub open spec fn is_stat(t: StatusPoint) -> bool {
    matches!(t, StatusPoint::SpStr | StatusPoint::SpAgi | StatusPoint::SpVit | StatusPoint::SpInt
        | StatusPoint::SpDex | StatusPoint::SpLuk | StatusPoint::SpPow | StatusPoint::SpSta
        | StatusPoint::SpWis | StatusPoint::SpSpl | StatusPoint::SpCon | StatusPoint::SpCrt)
}

fn stat_status(t: StatusPoint) -> (r: bool)
    ensures
        r == is_stat(t),
{
    match t {
        StatusPoint::SpStr | StatusPoint::SpAgi | StatusPoint::SpVit | StatusPoint::SpInt
        | StatusPoint::SpDex | StatusPoint::SpLuk | StatusPoint::SpPow | StatusPoint::SpSta
        | StatusPoint::SpWis | StatusPoint::SpSpl | StatusPoint::SpCon | StatusPoint::SpCrt => true,
        _ => false,
    }
}

/// What a couple status payload at `s` of `b` gives. The status code is the low half of
/// a four-byte word.
pub open spec fn couple_status_of(b: Seq<u8>, s: int) -> Result<(StatusPoint, Option<(u32, u32)>), PhaseError> {
    if s + 4 > b.len() {
        Err(PhaseError::Decode(DecodeError::OutOfBounds))
    } else {
        let code = le16(b, s) as u16;
        match StatusPoint::spec_from_code(code) {
            None => Err(PhaseError::InvalidStatus(code)),
            Some(t) => if !is_stat(t) {
                Ok((t, None))
            } else if s + 12 > b.len() {
                Err(PhaseError::Decode(DecodeError::OutOfBounds))
            } else {
                Ok((t, Some((le32(b, s + 4) as u32, le32(b, s + 8) as u32))))
            },
        }
    }
}

/// Reads a couple status: a status word, then for a stat its value and its bonus.
pub fn game_couple_status(data: &mut InputMessage) -> (r: Result<(StatusPoint, Option<(u32, u32)>), PhaseError>)
    requires
        old(data).wf(),
    ensures
        final(data).wf(),
        final(data).bytes() == old(data).bytes(),
        r == couple_status_of(old(data).bytes(), old(data).pos()),
        r is Ok ==> final(data).pos() == old(data).pos() + if r->Ok_0.1 is Some {
            12int
        } else {
            4int
        },
        final(data).pos() <= old(data).pos() + 12,
{
    let ghost b = data.bytes();
    let ghost s = data.pos();
    let word = match data.read_u32() {
        Ok(w) => w,
        Err(e) => return Err(PhaseError::Decode(e)),
    };
    let code = (word % 0x10000) as u16;
    assert(code == le16(b, s));
    match StatusPoint::from_code(code) {
        None => Err(PhaseError::InvalidStatus(code)),
        Some(t) => {
            if stat_status(t) {
                if data.remaining() < 8 {
                    return Err(PhaseError::Decode(DecodeError::OutOfBounds));
                }
                let value = data.read_u32().unwrap();
                let plus = data.read_u32().unwrap();
                Ok((t, Some((value, plus))))
            } else {
                Ok((t, None))
            }
        },
    }
}

/// The statuses whose update carries the points needed to raise them.
pub open spec fn is_stat_cost(t: StatusPoint) -> bool {
    matches!(t, StatusPoint::SpUstr | StatusPoint::SpUagi | StatusPoint::SpUvit
        | StatusPoint::SpUint | StatusPoint::SpUdex | StatusPoint::SpUluk | StatusPoint::SpUpow
        | StatusPoint::SpUsta | StatusPoint::SpUwis | StatusPoint::SpUspl | StatusPoint::SpUcon
        | StatusPoint::SpUcrt)
}

fn stat_cost_status(t: StatusPoint) -> (r: bool)
    ensures
        r == is_stat_cost(t),
{
    match t {
        StatusPoint::SpUstr | StatusPoint::SpUagi | StatusPoint::SpUvit | StatusPoint::SpUint
        | StatusPoint::SpUdex | StatusPoint::SpUluk | StatusPoint::SpUpow | StatusPoint::SpUsta
        | StatusPoint::SpUwis | StatusPoint::SpUspl | StatusPoint::SpUcon | StatusPoint::SpUcrt => true,
        _ => false,
    }
}

/// What a status update payload at `s` of `b` gives: a stat cost status and its value.
pub open spec fn update_status_of(b: Seq<u8>, s: int) -> Result<(StatusPoint, u8), PhaseError> {
    if s + 2 > b.len() {
        Err(PhaseError::Decode(DecodeError::OutOfBounds))
    } else {
        let code = le16(b, s) as u16;
        match StatusPoint::spec_from_code(code) {
            Some(t) => if !is_stat_cost(t) {
                Err(PhaseError::InvalidStatus(code))
            } else if s + 3 > b.len() {
                Err(PhaseError::Decode(DecodeError::OutOfBounds))
            } else {
                Ok((t, b[s + 2]))
            },
            None => Err(PhaseError::InvalidStatus(code)),
        }
    }
}

/// Reads a status update: a status code, which must be a stat cost, and one byte.
pub fn game_update_status(data: &mut InputMessage) -> (r: Result<(StatusPoint, u8), PhaseError>)
    requires
        old(data).wf(),
    ensures
        final(data).wf(),
        final(data).bytes() == old(data).bytes(),
        r == update_status_of(old(data).bytes(), old(data).pos()),
        r is Ok ==> final(data).pos() == old(data).pos() + 3,
        final(data).pos() <= old(data).pos() + 3,
{
    let code = match data.read_u16() {
        Ok(c) => c,
        Err(e) => return Err(PhaseError::Decode(e)),
    };
    match StatusPoint::from_code(code) {
        Some(t) => {
            if !stat_cost_status(t) {
                return Err(PhaseError::InvalidStatus(code));
            }
            match data.read_u8() {
                Ok(v) => Ok((t, v)),
                Err(e) => Err(PhaseError::Decode(e)),
            }
        },
        None => Err(PhaseError::InvalidStatus(code)),
    }
}

/// One quest of a quest list.
#[derive(Debug, Clone, Copy, PartialEq, Eq, Structural)]
pub struct QuestState {
    pub quest_id: u32,
    pub state: u8,
    pub time: u32,
    pub time2: u32,
    pub objective_count: u16,
}

/// Where `n` quests starting at `o` of `b` end: each has 15 bytes and then 42 bytes per
/// objective, the objective count being the last two of the 15. `None` if they run past
/// the end.
pub open spec fn quests_end(b: Seq<u8>, o: int, n: nat) -> Option<int>
    decreases n,
{
    if n == 0 {
        Some(o)
    } else if o + 15 > b.len() {
        None
    } else {
        let e = o + 15 + 42 * le16(b, o + 13);
        if e > b.len() {
            None
        } else {
            quests_end(b, e, (n - 1) as nat)
        }
    }
}

/// Where `n + 1` quests end: one more quest after the first `n`.
proof fn lemma_quests_end_push(b: Seq<u8>, o: int, n: nat)
    ensures
        quests_end(b, o, n + 1) == match quests_end(b, o, n) {
            Some(e) => quests_end(b, e, 1),
            None => None,
        },
    decreases n,
{
    if n > 0 {
        if o + 15 <= b.len() {
            let e = o + 15 + 42 * le16(b, o + 13);
            if e <= b.len() {
                lemma_quests_end_push(b, e, (n - 1) as nat);
            }
        }
    }
}

/// `q` is the quest whose record starts at offset `o` of `b`.
pub open spec fn quest_at(q: QuestState, b: Seq<u8>, o: int) -> bool {
    &&& q.quest_id == le32(b, o)
    &&& q.state == b[o + 4]
    &&& q.time == le32(b, o + 5)
    &&& q.time2 == le32(b, o + 9)
    &&& q.objective_count == le16(b, o + 13)
}

/// Reads a quest list: a count, then that many quests with their objectives.
pub fn game_quests_state_list(data: &mut InputMessage) -> (r: Result<Vec<QuestState>, DecodeError>)
    requires
        old(data).wf(),
    ensures
        final(data).wf(),
        final(data).bytes() == old(data).bytes(),
        match r {
            Ok(qs) => {
                let b = old(data).bytes();
                let s = old(data).pos();
                &&& s + 4 <= b.len()
                &&& quests_end(b, s + 4, le32(b, s) as nat) == Some(final(data).pos())
                &&& qs@.len() == le32(b, s)
                &&& forall|i: int|
                    0 <= i < qs@.len() ==> quest_at(
                        #[trigger] qs@[i],
                        b,
                        quests_end(b, s + 4, i as nat)->0,
                    )
            },
            Err(e) => !(old(data).has(4) && quests_end(
                old(data).bytes(),
                old(data).pos() + 4,
                le32(old(data).bytes(), old(data).pos()) as nat,
            ) is Some) && e == DecodeError::OutOfBounds,
        },
{
    let ghost b = data.bytes();
    let ghost s = data.pos();
    let count = match data.read_u32() {
        Ok(c) => c,
        Err(e) => return Err(e),
    };
    let mut quests: Vec<QuestState> = Vec::new();
    let mut i: u32 = 0;
    while i < count
        invariant
            data.wf(),
            data.bytes() == b,
            b == old(data).bytes(),
            s == old(data).pos(),
            s + 4 <= b.len(),
            count == le32(b, s),
            i <= count,
            quests@.len() == i,
            quests_end(b, s + 4, count as nat) == quests_end(b, data.pos(), (count - i) as nat),
            quests_end(b, s + 4, i as nat) == Some(data.pos() as int),
            forall|j: int|
                0 <= j < quests@.len() ==> quest_at(
                    #[trigger] quests@[j],
                    b,
                    quests_end(b, s + 4, j as nat)->0,
                ),
        decreases count - i,
    {
        let ghost o = data.pos() as int;
        proof {
            lemma_quests_end_push(b, s + 4, i as nat);
        }
        if data.remaining() < 15 {
            return Err(DecodeError::OutOfBounds);
        }
        let quest_id = data.read_u32().unwrap();
        let state = data.read_u8().unwrap();
        let time = data.read_u32().unwrap();
        let time2 = data.read_u32().unwrap();
        let objective_count = data.read_u16().unwrap();
        // each objective: id, race, monster id, level range, counts and a name of 24 bytes
        match data.skip_bytes(42 * objective_count as usize) {
            Ok(_) => {},
            Err(e) => return Err(e),
        }
        let ghost before = quests@;
        quests.push(QuestState { quest_id, state, time, time2, objective_count });
        proof {
            let e = data.pos() as int;
            assert(quests_end(b, e, 0) == Some(e));
            assert(quests_end(b, o, 1) == Some(e));
            assert(quest_at(quests@[i as int], b, o));
            assert forall|j: int| 0 <= j < quests@.len() implies quest_at(
                #[trigger] quests@[j],
                b,
                quests_end(b, s + 4, j as nat)->0,
            ) by {
                if j < i {
                    assert(quests@[j] == before[j]);
                } else {
                    assert(j as nat == i as nat);
                    assert(quests_end(b, s + 4, i as nat) == Some(o));
                }
            }
        }
        i = i + 1;
    }
    Ok(quests)
}

/// One achievement: its id, whether it is complete, when, and whether it was rewarded.
#[derive(Debug, Clone, Copy, PartialEq, Eq, Structural)]
pub struct Achievement {
    pub achievement_id: u32,
    pub is_complete: bool,
    pub completed_epoch_time: u32,
    pub is_rewarded: bool,
}

/// `a` is the achievement record at offset `o` of `b`.
pub open spec fn achievement_at(a: Achievement, b: Seq<u8>, o: int) -> bool {
    &&& a.achievement_id == le32(b, o)
    &&& a.is_complete == (b[o + 4] == 1)
    &&& a.completed_epoch_time == le32(b, o + 45)
    &&& a.is_rewarded == (b[o + 49] == 1)
}

/// Reads one achievement record of 50 bytes: id, completion flag, ten objective counts,
/// completion time and reward flag.
pub fn read_achievement(data: &mut InputMessage) -> (r: Result<Achievement, DecodeError>)
    requires
        old(data).wf(),
    ensures
        final(data).wf(),
        final(data).bytes() == old(data).bytes(),
        match r {
            Ok(a) => old(data).has(50) && achievement_at(a, old(data).bytes(), old(data).pos())
                && final(data).pos() == old(data).pos() + 50,
            Err(e) => !old(data).has(50) && e == DecodeError::OutOfBounds && final(data).pos()
                == old(data).pos(),
        },
{
    if data.remaining() < 50 {
        return Err(DecodeError::OutOfBounds);
    }
    let achievement_id = data.read_u32().unwrap();
    let is_complete = data.read_u8().unwrap() == 1;
    // the objective counts
    data.skip_bytes(40).unwrap();
    let completed_epoch_time = data.read_u32().unwrap();
    let is_rewarded = data.read_u8().unwrap() == 1;
    Ok(Achievement { achievement_id, is_complete, completed_epoch_time, is_rewarded })
}

/// The achievement summary: score, level and experience.
#[derive(Debug, Clone, Copy, PartialEq, Eq, Structural)]
pub struct AchievementSummary {
    pub total_score: u32,
    pub level: u16,
    pub exp: u32,
    pub exp_tnl: u32,
}

/// Reads one achievement with the summary before it.
pub fn game_single_achievement_data(data: &mut InputMessage) -> (r: Result<
    (AchievementSummary, Achievement),
    DecodeError,
>)
    requires
        old(data).wf(),
    ensures
        final(data).wf(),
        final(data).bytes() == old(data).bytes(),
        match r {
            Ok((sum, a)) => {
                let b = old(data).bytes();
                let s = old(data).pos();
                &&& old(data).has(64)
                &&& sum == (AchievementSummary {
                    total_score: le32(b, s) as u32,
                    level: le16(b, s + 4) as u16,
                    exp: le32(b, s + 6) as u32,
                    exp_tnl: le32(b, s + 10) as u32,
                })
                &&& achievement_at(a, b, s + 14)
            },
            Err(e) => !old(data).has(64) && e == DecodeError::OutOfBounds,
        },
        r is Ok ==> final(data).pos() == old(data).pos() + 64,
        r is Err ==> final(data).pos() == old(data).pos(),
{
    if data.remaining() < 64 {
        return Err(DecodeError::OutOfBounds);
    }
    let total_score = data.read_u32().unwrap();
    let level = data.read_u16().unwrap();
    let exp = data.read_u32().unwrap();
    let exp_tnl = data.read_u32().unwrap();
    let a = read_achievement(data).unwrap();
    Ok((AchievementSummary { total_score, level, exp, exp_tnl }, a))
}

/// Reads all achievements: a count, the summary, and that many achievement records.
pub fn game_all_achievements_data(data: &mut InputMessage) -> (r: Result<
    (AchievementSummary, Vec<Achievement>),
    DecodeError,
>)
    requires
        old(data).wf(),
    ensures
        final(data).wf(),
        final(data).bytes() == old(data).bytes(),
        match r {
            Ok((sum, all)) => {
                let b = old(data).bytes();
                let s = old(data).pos();
                &&& s + 18 + 50 * le32(b, s) <= b.len()
                &&& sum == (AchievementSummary {
                    total_score: le32(b, s + 4) as u32,
                    level: le16(b, s + 8) as u16,
                    exp: le32(b, s + 10) as u32,
                    exp_tnl: le32(b, s + 14) as u32,
                })
                &&& all@.len() == le32(b, s)
                &&& forall|i: int| 0 <= i < all@.len() ==> achievement_at(#[trigger] all@[i], b, s + 18 + 50 * i)
            },
            Err(e) => !(old(data).has(18) && old(data).pos() + 18 + 50 * le32(
                old(data).bytes(),
                old(data).pos(),
            ) <= old(data).bytes().len()) && e == DecodeError::OutOfBounds,
        },
        r is Ok ==> final(data).pos() == old(data).pos() + 18 + 50 * le32(old(data).bytes(), old(data).pos()),
{
    let ghost b = data.bytes();
    let ghost s = data.pos();
    if data.remaining() < 18 {
        return Err(DecodeError::OutOfBounds);
    }
    let count = data.read_u32().unwrap();
    let total_score = data.read_u32().unwrap();
    let level = data.read_u16().unwrap();
    let exp = data.read_u32().unwrap();
    let exp_tnl = data.read_u32().unwrap();
    let mut all: Vec<Achievement> = Vec::new();
    let mut i: u32 = 0;
    while i < count
        invariant
            data.wf(),
            data.bytes() == b,
            b == old(data).bytes(),
            s == old(data).pos(),
            s + 18 <= b.len(),
            count == le32(b, s),
            i <= count,
            all@.len() == i,
            data.pos() == s + 18 + 50 * i,
            forall|j: int| 0 <= j < all@.len() ==> achievement_at(#[trigger] all@[j], b, s + 18 + 50 * j),
        decreases count - i,
    {
        match read_achievement(data) {
            Ok(a) => all.push(a),
            Err(e) => {
                assert(s + 18 + 50 * count >= data.pos() + 50);
                return Err(e);
            },
        }
        i = i + 1;
    }
    Ok((AchievementSummary { total_score, level, exp, exp_tnl }, all))
}

/// A change of how a unit looks.
#[derive(Debug, Clone, Copy, PartialEq, Eq, Structural)]
pub struct SpriteChange {
    pub account_id: u32,
    pub sprite_type: u8,
    pub value: u32,
    pub value2: u32,
}

/// Reads a sprite change: unit, sprite type and two values.
pub fn game_sprite_change(data: &mut InputMessage) -> (r: Result<SpriteChange, DecodeError>)
    requires
        old(data).wf(),
    ensures
        final(data).wf(),
        final(data).bytes() == old(data).bytes(),
        match r {
            Ok(c) => {
                let b = old(data).bytes();
                let s = old(data).pos();
                &&& old(data).has(13)
                &&& c == (SpriteChange {
                    account_id: le32(b, s) as u32,
                    sprite_type: b[s + 4],
                    value: le32(b, s + 5) as u32,
                    value2: le32(b, s + 9) as u32,
                })
            },
            Err(e) => !old(data).has(13) && e == DecodeError::OutOfBounds,
        },
        r is Ok ==> final(data).pos() == old(data).pos() + 13,
        r is Err ==> final(data).pos() == old(data).pos(),
{
    if data.remaining() < 13 {
        return Err(DecodeError::OutOfBounds);
    }
    let account_id = data.read_u32().unwrap();
    let sprite_type = data.read_u8().unwrap();
    let value = data.read_u32().unwrap();
    let value2 = data.read_u32().unwrap();
    Ok(SpriteChange { account_id, sprite_type, value, value2 })
}

/// Reads the start of an inventory: its type and a name that fills the rest.
pub fn game_inventory_start(data: &mut InputMessage) -> (r: Result<(u8, String), DecodeError>)
    requires
        old(data).wf(),
    ensures
        final(data).wf(),
        final(data).bytes() == old(data).bytes(),
        match r {
            Ok((t, name)) => {
                let b = old(data).bytes();
                let s = old(data).pos();
                &&& old(data).has(1)
                &&& t == b[s]
                &&& name@ == latin1(until_nul(b.subrange(s + 1, b.len() as int)))
            },
            Err(e) => !old(data).has(1) && e == DecodeError::OutOfBounds,
        },
        r is Ok ==> final(data).pos() == old(data).bytes().len(),
{
    let t = match data.read_u8() {
        Ok(t) => t,
        Err(e) => return Err(e),
    };
    let name = game_display_message(data);
    Ok((t, name))
}

/// One item of an inventory list.
#[derive(Debug, Clone, Copy, PartialEq, Eq, Structural)]
pub struct EquipItem {
    pub index: u16,
    pub item_id: u32,
    pub item_type: u8,
    pub location: u32,
    pub wear_state: u32,
    pub refining_level: u8,
    pub enchant_grade: u8,
    /// Identified, damaged, and kept in the misc tab, in the three low bits.
    pub flag: u8,
}

/// `it` is the item record at offset `o` of `b`.
pub open spec fn equip_item_at(it: EquipItem, b: Seq<u8>, o: int) -> bool {
    &&& it.index == le16(b, o)
    &&& it.item_id == le32(b, o + 2)
    &&& it.item_type == b[o + 6]
    &&& it.location == le32(b, o + 7)
    &&& it.wear_state == le32(b, o + 11)
    &&& it.refining_level == b[o + 65]
    &&& it.enchant_grade == b[o + 66]
    &&& it.flag == b[o + 67]
}

/// Reads one item record of 68 bytes: index, item id, type, location, wear state, four
/// cards, expiry, binding, sprite, option count and five options, refining, enchantment,
/// flags.
pub fn read_equip_item(data: &mut InputMessage) -> (r: Result<EquipItem, DecodeError>)
    requires
        old(data).wf(),
    ensures
        final(data).wf(),
        final(data).bytes() == old(data).bytes(),
        match r {
            Ok(it) => old(data).has(68) && equip_item_at(it, old(data).bytes(), old(data).pos())
                && final(data).pos() == old(data).pos() + 68,
            Err(e) => !old(data).has(68) && e == DecodeError::OutOfBounds && final(data).pos()
                == old(data).pos(),
        },
{
    if data.remaining() < 68 {
        return Err(DecodeError::OutOfBounds);
    }
    let index = data.read_u16().unwrap();
    let item_id = data.read_u32().unwrap();
    let item_type = data.read_u8().unwrap();
    let location = data.read_u32().unwrap();
    let wear_state = data.read_u32().unwrap();
    // cards, expiry, binding, sprite, option count and options
    data.skip_bytes(50).unwrap();
    let refining_level = data.read_u8().unwrap();
    let enchant_grade = data.read_u8().unwrap();
    let flag = data.read_u8().unwrap();
    Ok(EquipItem { index, item_id, item_type, location, wear_state, refining_level, enchant_grade, flag })
}

/// Reads item records up to the end of the payload.
pub fn read_equip_items(data: &mut InputMessage) -> (r: Result<Vec<EquipItem>, DecodeError>)
    requires
        old(data).wf(),
    ensures
        final(data).wf(),
        final(data).bytes() == old(data).bytes(),
        match r {
            Ok(xs) => {
                let b = old(data).bytes();
                let s = old(data).pos();
                &&& xs@.len() * 68 == b.len() - s
                &&& final(data).pos() == b.len()
                &&& forall|i: int| 0 <= i < xs@.len() ==> equip_item_at(#[trigger] xs@[i], b, s + 68 * i)
            },
            Err(e) => (old(data).bytes().len() - old(data).pos()) % 68 != 0 && e
                == DecodeError::OutOfBounds,
        },
{
    let ghost b = data.bytes();
    let ghost s = data.pos();
    let mut xs: Vec<EquipItem> = Vec::new();
    while !data.is_eof()
        invariant
            data.wf(),
            data.bytes() == b,
            b == old(data).bytes(),
            s == old(data).pos(),
            s <= data.pos() <= b.len(),
            data.pos() == s + 68 * xs@.len(),
            forall|i: int| 0 <= i < xs@.len() ==> equip_item_at(#[trigger] xs@[i], b, s + 68 * i),
        decreases b.len() - data.pos(),
    {
        match read_equip_item(data) {
            Ok(x) => {
                xs.push(x);
            },
            Err(e) => {
                proof {
                    vstd::arithmetic::div_mod::lemma_fundamental_div_mod_converse(
                        b.len() - s,
                        68,
                        xs@.len() as int,
                        b.len() - data.pos(),
                    );
                }
                return Err(e);
            },
        }
    }
    Ok(xs)
}

/// Reads an inventory list: its type, then item records up to the end.
pub fn game_inventory_equip_item(data: &mut InputMessage) -> (r: Result<(u8, Vec<EquipItem>), DecodeError>)
    requires
        old(data).wf(),
    ensures
        final(data).wf(),
        final(data).bytes() == old(data).bytes(),
        match r {
            Ok((t, xs)) => {
                let b = old(data).bytes();
                let s = old(data).pos();
                &&& old(data).has(1)
                &&& t == b[s]
                &&& xs@.len() * 68 == b.len() - s - 1
                &&& forall|i: int| 0 <= i < xs@.len() ==> equip_item_at(#[trigger] xs@[i], b, s + 1 + 68 * i)
            },
            Err(e) => !(old(data).has(1) && (old(data).bytes().len() - old(data).pos() - 1) % 68 == 0)
                && e == DecodeError::OutOfBounds,
        },
        r is Ok ==> final(data).pos() == old(data).bytes().len(),
{
    let t = match data.read_u8() {
        Ok(t) => t,
        Err(e) => return Err(e),
    };
    match read_equip_items(data) {
        Ok(xs) => Ok((t, xs)),
        Err(e) => Err(e),
    }
}

/// `x` is the switch entry at offset `o` of `b`: an inventory index and an equip position.
pub open spec fn switch_entry_at(x: (u16, u32), b: Seq<u8>, o: int) -> bool {
    x.0 == le16(b, o) && x.1 == le32(b, o + 2)
}

fn read_switch_entry(data: &mut InputMessage) -> (r: Result<(u16, u32), DecodeError>)
    requires
        old(data).wf(),
    ensures
        final(data).wf(),
        final(data).bytes() == old(data).bytes(),
        match r {
            Ok(x) => old(data).has(6) && switch_entry_at(x, old(data).bytes(), old(data).pos())
                && final(data).pos() == old(data).pos() + 6,
            Err(e) => !old(data).has(6) && e == DecodeError::OutOfBounds && final(data).pos()
                == old(data).pos(),
        },
{
    if data.remaining() < 6 {
        return Err(DecodeError::OutOfBounds);
    }
    let index = data.read_u16().unwrap();
    let position = data.read_u32().unwrap();
    Ok((index, position))
}

/// Reads the equip switch list: index and position pairs up to the end.
pub fn game_equip_switch_list(data: &mut InputMessage) -> (r: Result<Vec<(u16, u32)>, DecodeError>)
    requires
        old(data).wf(),
    ensures
        final(data).wf(),
        final(data).bytes() == old(data).bytes(),
        match r {
            Ok(xs) => {
                let b = old(data).bytes();
                let s = old(data).pos();
                &&& xs@.len() * 6 == b.len() - s
                &&& final(data).pos() == b.len()
                &&& forall|i: int| 0 <= i < xs@.len() ==> switch_entry_at(#[trigger] xs@[i], b, s + 6 * i)
            },
            Err(e) => (old(data).bytes().len() - old(data).pos()) % 6 != 0 && e
                == DecodeError::OutOfBounds,
        },
{
    let ghost b = data.bytes();
    let ghost s = data.pos();
    let mut xs: Vec<(u16, u32)> = Vec::new();
    while !data.is_eof()
        invariant
            data.wf(),
            data.bytes() == b,
            b == old(data).bytes(),
            s == old(data).pos(),
            s <= data.pos() <= b.len(),
            data.pos() == s + 6 * xs@.len(),
            forall|i: int| 0 <= i < xs@.len() ==> switch_entry_at(#[trigger] xs@[i], b, s + 6 * i),
        decreases b.len() - data.pos(),
    {
        match read_switch_entry(data) {
            Ok(x) => {
                xs.push(x);
            },
            Err(e) => {
                proof {
                    vstd::arithmetic::div_mod::lemma_fundamental_div_mod_converse(
                        b.len() - s,
                        6,
                        xs@.len() as int,
                        b.len() - data.pos(),
                    );
                }
                return Err(e);
            },
        }
    }
    Ok(xs)
}

/// A unit standing still on screen.
#[derive(Debug, Clone, PartialEq, Eq)]
pub struct UnitIdle {
    pub object_type: u8,
    pub aid: u32,
    pub gid: u32,
    pub speed: u16,
    pub job: u16,
    pub head_dir: u16,
    pub x: u16,
    pub y: u16,
    pub dir: u8,
    pub clevel: u16,
    pub max_hp: u32,
    pub hp: u32,
    pub name: String,
}

/// Reads an idle unit: a record of 104 bytes whose packed position sits at offset 59 and
/// whose name takes the last 24.
pub fn game_unit_idle(data: &mut InputMessage) -> (r: Result<UnitIdle, DecodeError>)
    requires
        old(data).wf(),
    ensures
        final(data).wf(),
        final(data).bytes() == old(data).bytes(),
        match r {
            Ok(u) => {
                let b = old(data).bytes();
                let s = old(data).pos();
                &&& old(data).has(104)
                &&& u.object_type == b[s]
                &&& u.aid == le32(b, s + 1)
                &&& u.gid == le32(b, s + 5)
                &&& u.speed == le16(b, s + 9)
                &&& u.job == le16(b, s + 19)
                &&& u.head_dir == le16(b, s + 41)
                &&& u.x == pos_x(b[s + 59], b[s + 60])
                &&& u.y == pos_y(b[s + 60], b[s + 61])
                &&& u.dir == pos_dir(b[s + 61])
                &&& u.clevel == le16(b, s + 65)
                &&& u.max_hp == le32(b, s + 69)
                &&& u.hp == le32(b, s + 73)
                &&& u.name@ == latin1(until_nul(b.subrange(s + 80, s + 104)))
            },
            Err(e) => !old(data).has(104) && e == DecodeError::OutOfBounds,
        },
        r is Ok ==> final(data).pos() == old(data).pos() + 104,
        r is Err ==> final(data).pos() == old(data).pos(),
{
    if data.remaining() < 104 {
        return Err(DecodeError::OutOfBounds);
    }
    let object_type = data.read_u8().unwrap();
    let aid = data.read_u32().unwrap();
    let gid = data.read_u32().unwrap();
    let speed = data.read_u16().unwrap();
    // body, health and effect state
    data.skip_bytes(8).unwrap();
    let job = data.read_u16().unwrap();
    // head, weapon, shield, accessories, palettes
    data.skip_bytes(20).unwrap();
    let head_dir = data.read_u16().unwrap();
    // robe, guild, emblem, honor, virtue, pk mode, sex
    data.skip_bytes(16).unwrap();
    let packed = data.read_bytes(3).unwrap();
    let (x, y, dir) = decode_pos(packed[0], packed[1], packed[2]);
    // size and state
    data.skip_bytes(3).unwrap();
    let clevel = data.read_u16().unwrap();
    let _font = data.read_u16().unwrap();
    let max_hp = data.read_u32().unwrap();
    let hp = data.read_u32().unwrap();
    // boss flag, body
    data.skip_bytes(3).unwrap();
    let name = data.read_string(Some(24)).unwrap();
    Ok(UnitIdle { object_type, aid, gid, speed, job, head_dir, x, y, dir, clevel, max_hp, hp, name })
}

/// A status effect active on a unit that enters the screen.
#[derive(Debug, Clone, Copy, PartialEq, Eq, Structural)]
pub struct ActiveEffect {
    pub index: u32,
    pub status_type: u16,
    pub remain_msec: u32,
}

/// Reads an active effect: unit, effect, remaining time and four unknown words.
pub fn game_screen_active_esft(data: &mut InputMessage) -> (r: Result<ActiveEffect, DecodeError>)
    requires
        old(data).wf(),
    ensures
        final(data).wf(),
        final(data).bytes() == old(data).bytes(),
        match r {
            Ok(a) => {
                let b = old(data).bytes();
                let s = old(data).pos();
                &&& old(data).has(26)
                &&& a == (ActiveEffect {
                    index: le32(b, s) as u32,
                    status_type: le16(b, s + 4) as u16,
                    remain_msec: le32(b, s + 6) as u32,
                })
            },
            Err(e) => !old(data).has(26) && e == DecodeError::OutOfBounds,
        },
        r is Ok ==> final(data).pos() == old(data).pos() + 26,
        r is Err ==> final(data).pos() == old(data).pos(),
{
    if data.remaining() < 26 {
        return Err(DecodeError::OutOfBounds);
    }
    let index = data.read_u32().unwrap();
    let status_type = data.read_u16().unwrap();
    let remain_msec = data.read_u32().unwrap();
    data.skip_bytes(16).unwrap();
    Ok(ActiveEffect { index, status_type, remain_msec })
}

/// One skill of the skill tree.
#[derive(Debug, Clone, PartialEq, Eq)]
pub struct Skill {
    pub id: u16,
    pub skill_info: u32,
    pub level: u16,
    pub sp: u16,
    pub range: u16,
    pub name: String,
    pub is_max: bool,
}

/// `k` is the skill record at offset `o` of `b`.
pub open spec fn skill_at(k: Skill, b: Seq<u8>, o: int) -> bool {
    &&& k.id == le16(b, o)
    &&& k.skill_info == le32(b, o + 2)
    &&& k.level == le16(b, o + 6)
    &&& k.sp == le16(b, o + 8)
    &&& k.range == le16(b, o + 10)
    &&& k.name@ == latin1(until_nul(b.subrange(o + 12, o + 36)))
    &&& k.is_max == (b[o + 36] == 1)
}

/// Reads one skill record of 37 bytes.
pub fn read_skill(data: &mut InputMessage) -> (r: Result<Skill, DecodeError>)
    requires
        old(data).wf(),
    ensures
        final(data).wf(),
        final(data).bytes() == old(data).bytes(),
        match r {
            Ok(k) => old(data).has(37) && skill_at(k, old(data).bytes(), old(data).pos())
                && final(data).pos() == old(data).pos() + 37,
            Err(e) => !old(data).has(37) && e == DecodeError::OutOfBounds && final(data).pos()
                == old(data).pos(),
        },
{
    if data.remaining() < 37 {
        return Err(DecodeError::OutOfBounds);
    }
    let id = data.read_u16().unwrap();
    let skill_info = data.read_u32().unwrap();
    let level = data.read_u16().unwrap();
    let sp = data.read_u16().unwrap();
    let range = data.read_u16().unwrap();
    let name = data.read_string(Some(24)).unwrap();
    let is_max = data.read_u8().unwrap() == 1;
    Ok(Skill { id, skill_info, level, sp, range, name, is_max })
}

/// Reads the skill tree: skill records up to the end of the payload.
pub fn game_skill_tree(data: &mut InputMessage) -> (r: Result<Vec<Skill>, DecodeError>)
    requires
        old(data).wf(),
    ensures
        final(data).wf(),
        final(data).bytes() == old(data).bytes(),
        match r {
            Ok(xs) => {
                let b = old(data).bytes();
                let s = old(data).pos();
                &&& xs@.len() * 37 == b.len() - s
                &&& final(data).pos() == b.len()
                &&& forall|i: int| 0 <= i < xs@.len() ==> skill_at(#[trigger] xs@[i], b, s + 37 * i)
            },
            Err(e) => (old(data).bytes().len() - old(data).pos()) % 37 != 0 && e
                == DecodeError::OutOfBounds,
        },
{
    let ghost b = data.bytes();
    let ghost s = data.pos();
    let mut xs: Vec<Skill> = Vec::new();
    while !data.is_eof()
        invariant
            data.wf(),
            data.bytes() == b,
            b == old(data).bytes(),
            s == old(data).pos(),
            s <= data.pos() <= b.len(),
            data.pos() == s + 37 * xs@.len(),
            forall|i: int| 0 <= i < xs@.len() ==> skill_at(#[trigger] xs@[i], b, s + 37 * i),
        decreases b.len() - data.pos(),
    {
        match read_skill(data) {
            Ok(x) => {
                xs.push(x);
            },
            Err(e) => {
                proof {
                    vstd::arithmetic::div_mod::lemma_fundamental_div_mod_converse(
                        b.len() - s,
                        37,
                        xs@.len() as int,
                        b.len() - data.pos(),
                    );
                }
                return Err(e);
            },
        }
    }
    Ok(xs)
}

/// One hotkey slot: a skill or an item, its id, and its level or count.
#[derive(Debug, Clone, Copy, PartialEq, Eq, Structural)]
pub struct Hotkey {
    pub is_skill: bool,
    pub id: u32,
    pub count: u16,
}

/// The number of hotkey slots in a hotkey list.
pub const HOTKEY_COUNT: u32 = 38;

/// Reads the hotkey list: rotation, tab, and 38 slots of 7 bytes.
pub fn game_shortcuts_key_list(data: &mut InputMessage) -> (r: Result<(u8, u16, Vec<Hotkey>), DecodeError>)
    requires
        old(data).wf(),
    ensures
        final(data).wf(),
        final(data).bytes() == old(data).bytes(),
        match r {
            Ok((rotate, tab, keys)) => {
                let b = old(data).bytes();
                let s = old(data).pos();
                &&& old(data).has(269)
                &&& rotate == b[s]
                &&& tab == le16(b, s + 1)
                &&& keys@.len() == 38
                &&& forall|i: int|
                    0 <= i < 38 ==> #[trigger] keys@[i] == (Hotkey {
                        is_skill: b[s + 3 + 7 * i] == 1,
                        id: le32(b, s + 4 + 7 * i) as u32,
                        count: le16(b, s + 8 + 7 * i) as u16,
                    })
            },
            Err(e) => !old(data).has(269) && e == DecodeError::OutOfBounds,
        },
        r is Ok ==> final(data).pos() == old(data).pos() + 269,
        r is Err ==> final(data).pos() == old(data).pos(),
{
    let ghost b = data.bytes();
    let ghost s = data.pos();
    if data.remaining() < 269 {
        return Err(DecodeError::OutOfBounds);
    }
    let rotate = data.read_u8().unwrap();
    let tab = data.read_u16().unwrap();
    let mut keys: Vec<Hotkey> = Vec::new();
    let mut i: u32 = 0;
    while i < HOTKEY_COUNT
        invariant
            data.wf(),
            data.bytes() == b,
            b == old(data).bytes(),
            s == old(data).pos(),
            s + 269 <= b.len(),
            i <= 38,
            keys@.len() == i,
            data.pos() == s + 3 + 7 * i,
            forall|j: int|
                0 <= j < i ==> #[trigger] keys@[j] == (Hotkey {
                    is_skill: b[s + 3 + 7 * j] == 1,
                    id: le32(b, s + 4 + 7 * j) as u32,
                    count: le16(b, s + 8 + 7 * j) as u16,
                }),
        decreases 38 - i,
    {
        let is_skill = data.read_u8().unwrap() == 1;
        let id = data.read_u32().unwrap();
        let count = data.read_u16().unwrap();
        keys.push(Hotkey { is_skill, id, count });
        i = i + 1;
    }
    Ok((rotate, tab, keys))
}

/// The character's stats and the figures derived from them.
#[derive(Debug, Clone, Copy, PartialEq, Eq, Structural)]
pub struct CharacterStatus {
    pub status_point: u16,
    pub strength: u8,
    pub agility: u8,
    pub vitality: u8,
    pub intelligence: u8,
    pub dexterity: u8,
    pub luck: u8,
    pub hit: u16,
    pub flee: u16,
    pub critical: u16,
    pub aspd: u16,
}

/// Reads the character status: points, six stats each with the points needed to raise
/// it, then attack, magic attack, defence, magic defence, hit, flee, critical and speed.
pub fn game_character_status(data: &mut InputMessage) -> (r: Result<CharacterStatus, DecodeError>)
    requires
        old(data).wf(),
    ensures
        final(data).wf(),
        final(data).bytes() == old(data).bytes(),
        match r {
            Ok(c) => {
                let b = old(data).bytes();
                let s = old(data).pos();
                &&& old(data).has(42)
                &&& c == (CharacterStatus {
                    status_point: le16(b, s) as u16,
                    strength: b[s + 2],
                    agility: b[s + 4],
                    vitality: b[s + 6],
                    intelligence: b[s + 8],
                    dexterity: b[s + 10],
                    luck: b[s + 12],
                    hit: le16(b, s + 30) as u16,
                    flee: le16(b, s + 32) as u16,
                    critical: le16(b, s + 36) as u16,
                    aspd: le16(b, s + 38) as u16,
                })
            },
            Err(e) => !old(data).has(42) && e == DecodeError::OutOfBounds,
        },
        r is Ok ==> final(data).pos() == old(data).pos() + 42,
        r is Err ==> final(data).pos() == old(data).pos(),
{
    if data.remaining() < 42 {
        return Err(DecodeError::OutOfBounds);
    }
    let status_point = data.read_u16().unwrap();
    let strength = data.read_u8().unwrap();
    let _strengthneeded = data.read_u8().unwrap();
    let agility = data.read_u8().unwrap();
    let _agi_needed = data.read_u8().unwrap();
    let vitality = data.read_u8().unwrap();
    let _vit_needed = data.read_u8().unwrap();
    let intelligence = data.read_u8().unwrap();
    let _int_needed = data.read_u8().unwrap();
    let dexterity = data.read_u8().unwrap();
    let _dex_needed = data.read_u8().unwrap();
    let luck = data.read_u8().unwrap();
    let _luk_needed = data.read_u8().unwrap();
    // attack, magic attack, defence and magic defence, each in two parts
    data.skip_bytes(16).unwrap();
    let hit = data.read_u16().unwrap();
    let flee = data.read_u16().unwrap();
    let _flee2 = data.read_u16().unwrap();
    let critical = data.read_u16().unwrap();
    let aspd = data.read_u16().unwrap();
    let _plus_aspd = data.read_u16().unwrap();
    Ok(CharacterStatus { status_point, strength, agility, vitality, intelligence, dexterity, luck, hit, flee, critical, aspd })
}

/// Reads the block list of a unit: its account id.
pub fn game_map_block_list(data: &mut InputMessage) -> (r: Result<u32, DecodeError>)
    requires
        old(data).wf(),
    ensures
        final(data).wf(),
        final(data).bytes() == old(data).bytes(),
        match r {
            Ok(v) => {
                let b = old(data).bytes();
                let s = old(data).pos();
                old(data).has(4) && v == le32(b, s) as u32
            },
            Err(e) => !old(data).has(4) && e == DecodeError::OutOfBounds,
        },
        r is Ok ==> final(data).pos() == old(data).pos() + 4,
        r is Err ==> final(data).pos() == old(data).pos(),
{
    if data.remaining() < 4 {
        return Err(DecodeError::OutOfBounds);
    }
    Ok(data.read_u32().unwrap())
}

/// Reads the inventory expansion: its size.
pub fn game_inventory_expansion_info(data: &mut InputMessage) -> (r: Result<u16, DecodeError>)
    requires
        old(data).wf(),
    ensures
        final(data).wf(),
        final(data).bytes() == old(data).bytes(),
        match r {
            Ok(v) => {
                let b = old(data).bytes();
                let s = old(data).pos();
                old(data).has(2) && v == le16(b, s) as u16
            },
            Err(e) => !old(data).has(2) && e == DecodeError::OutOfBounds,
        },
        r is Ok ==> final(data).pos() == old(data).pos() + 2,
        r is Err ==> final(data).pos() == old(data).pos(),
{
    if data.remaining() < 2 {
        return Err(DecodeError::OutOfBounds);
    }
    Ok(data.read_u16().unwrap())
}

/// Reads a status notice: its type and message id.
pub fn game_notify_change_status(data: &mut InputMessage) -> (r: Result<(u32, u32), DecodeError>)
    requires
        old(data).wf(),
    ensures
        final(data).wf(),
        final(data).bytes() == old(data).bytes(),
        match r {
            Ok(v) => {
                let b = old(data).bytes();
                let s = old(data).pos();
                old(data).has(8) && v == (le32(b, s) as u32, le32(b, s + 4) as u32)
            },
            Err(e) => !old(data).has(8) && e == DecodeError::OutOfBounds,
        },
        r is Ok ==> final(data).pos() == old(data).pos() + 8,
        r is Err ==> final(data).pos() == old(data).pos(),
{
    if data.remaining() < 8 {
        return Err(DecodeError::OutOfBounds);
    }
    let v0 = data.read_u32().unwrap();
    let v1 = data.read_u32().unwrap();
    Ok((v0, v1))
}

/// Reads the attack range.
pub fn game_atk_range(data: &mut InputMessage) -> (r: Result<u16, DecodeError>)
    requires
        old(data).wf(),
    ensures
        final(data).wf(),
        final(data).bytes() == old(data).bytes(),
        match r {
            Ok(v) => {
                let b = old(data).bytes();
                let s = old(data).pos();
                old(data).has(2) && v == le16(b, s) as u16
            },
            Err(e) => !old(data).has(2) && e == DecodeError::OutOfBounds,
        },
        r is Ok ==> final(data).pos() == old(data).pos() + 2,
        r is Err ==> final(data).pos() == old(data).pos(),
{
    if data.remaining() < 2 {
        return Err(DecodeError::OutOfBounds);
    }
    Ok(data.read_u16().unwrap())
}

/// Reads whether mail is unread.
pub fn game_mail_unread(data: &mut InputMessage) -> (r: Result<bool, DecodeError>)
    requires
        old(data).wf(),
    ensures
        final(data).wf(),
        final(data).bytes() == old(data).bytes(),
        match r {
            Ok(v) => {
                let b = old(data).bytes();
                let s = old(data).pos();
                old(data).has(1) && v == (b[s] == 1)
            },
            Err(e) => !old(data).has(1) && e == DecodeError::OutOfBounds,
        },
        r is Ok ==> final(data).pos() == old(data).pos() + 1,
        r is Err ==> final(data).pos() == old(data).pos(),
{
    if data.remaining() < 1 {
        return Err(DecodeError::OutOfBounds);
    }
    Ok(data.read_u8().unwrap() == 1)
}

/// Reads the weight limit, in percent.
pub fn game_weight_limit(data: &mut InputMessage) -> (r: Result<u32, DecodeError>)
    requires
        old(data).wf(),
    ensures
        final(data).wf(),
        final(data).bytes() == old(data).bytes(),
        match r {
            Ok(v) => {
                let b = old(data).bytes();
                let s = old(data).pos();
                old(data).has(4) && v == le32(b, s) as u32
            },
            Err(e) => !old(data).has(4) && e == DecodeError::OutOfBounds,
        },
        r is Ok ==> final(data).pos() == old(data).pos() + 4,
        r is Err ==> final(data).pos() == old(data).pos(),
{
    if data.remaining() < 4 {
        return Err(DecodeError::OutOfBounds);
    }
    Ok(data.read_u32().unwrap())
}

/// Reads the end of an inventory: its type and a flag.
pub fn game_inventory_end(data: &mut InputMessage) -> (r: Result<(u8, u8), DecodeError>)
    requires
        old(data).wf(),
    ensures
        final(data).wf(),
        final(data).bytes() == old(data).bytes(),
        match r {
            Ok(v) => {
                let b = old(data).bytes();
                let s = old(data).pos();
                old(data).has(2) && v == (b[s], b[s + 1])
            },
            Err(e) => !old(data).has(2) && e == DecodeError::OutOfBounds,
        },
        r is Ok ==> final(data).pos() == old(data).pos() + 2,
        r is Err ==> final(data).pos() == old(data).pos(),
{
    if data.remaining() < 2 {
        return Err(DecodeError::OutOfBounds);
    }
    let v0 = data.read_u8().unwrap();
    let v1 = data.read_u8().unwrap();
    Ok((v0, v1))
}

/// Reads the map property and its flags.
pub fn game_map_property(data: &mut InputMessage) -> (r: Result<(u16, u32), DecodeError>)
    requires
        old(data).wf(),
    ensures
        final(data).wf(),
        final(data).bytes() == old(data).bytes(),
        match r {
            Ok(v) => {
                let b = old(data).bytes();
                let s = old(data).pos();
                old(data).has(6) && v == (le16(b, s) as u16, le32(b, s + 2) as u32)
            },
            Err(e) => !old(data).has(6) && e == DecodeError::OutOfBounds,
        },
        r is Ok ==> final(data).pos() == old(data).pos() + 6,
        r is Err ==> final(data).pos() == old(data).pos(),
{
    if data.remaining() < 6 {
        return Err(DecodeError::OutOfBounds);
    }
    let v0 = data.read_u16().unwrap();
    let v1 = data.read_u32().unwrap();
    Ok((v0, v1))
}

/// Reads a parameter with an eight-byte value: its type and value.
pub fn game_long_parameter_change(data: &mut InputMessage) -> (r: Result<(u16, u64), DecodeError>)
    requires
        old(data).wf(),
    ensures
        final(data).wf(),
        final(data).bytes() == old(data).bytes(),
        match r {
            Ok(v) => {
                let b = old(data).bytes();
                let s = old(data).pos();
                old(data).has(10) && v == (le16(b, s) as u16, le64(b, s + 2) as u64)
            },
            Err(e) => !old(data).has(10) && e == DecodeError::OutOfBounds,
        },
        r is Ok ==> final(data).pos() == old(data).pos() + 10,
        r is Err ==> final(data).pos() == old(data).pos(),
{
    if data.remaining() < 10 {
        return Err(DecodeError::OutOfBounds);
    }
    let v0 = data.read_u16().unwrap();
    let v1 = data.read_u64().unwrap();
    Ok((v0, v1))
}

/// Reads the party invitation setting: zero lets invitations through.
pub fn game_party_invitation_state(data: &mut InputMessage) -> (r: Result<u8, DecodeError>)
    requires
        old(data).wf(),
    ensures
        final(data).wf(),
        final(data).bytes() == old(data).bytes(),
        match r {
            Ok(v) => {
                let b = old(data).bytes();
                let s = old(data).pos();
                old(data).has(1) && v == b[s]
            },
            Err(e) => !old(data).has(1) && e == DecodeError::OutOfBounds,
        },
        r is Ok ==> final(data).pos() == old(data).pos() + 1,
        r is Err ==> final(data).pos() == old(data).pos(),
{
    if data.remaining() < 1 {
        return Err(DecodeError::OutOfBounds);
    }
    Ok(data.read_u8().unwrap())
}

/// Reads whether others may open the equip window.
pub fn game_equip_window_open(data: &mut InputMessage) -> (r: Result<bool, DecodeError>)
    requires
        old(data).wf(),
    ensures
        final(data).wf(),
        final(data).bytes() == old(data).bytes(),
        match r {
            Ok(v) => {
                let b = old(data).bytes();
                let s = old(data).pos();
                old(data).has(1) && v == (b[s] == 1)
            },
            Err(e) => !old(data).has(1) && e == DecodeError::OutOfBounds,
        },
        r is Ok ==> final(data).pos() == old(data).pos() + 1,
        r is Err ==> final(data).pos() == old(data).pos(),
{
    if data.remaining() < 1 {
        return Err(DecodeError::OutOfBounds);
    }
    Ok(data.read_u8().unwrap() == 1)
}

/// Reads a configuration change: its type and whether it is on.
pub fn game_configuration_change(data: &mut InputMessage) -> (r: Result<(u32, bool), DecodeError>)
    requires
        old(data).wf(),
    ensures
        final(data).wf(),
        final(data).bytes() == old(data).bytes(),
        match r {
            Ok(v) => {
                let b = old(data).bytes();
                let s = old(data).pos();
                old(data).has(8) && v == (le32(b, s) as u32, le32(b, s + 4) == 1)
            },
            Err(e) => !old(data).has(8) && e == DecodeError::OutOfBounds,
        },
        r is Ok ==> final(data).pos() == old(data).pos() + 8,
        r is Err ==> final(data).pos() == old(data).pos(),
{
    if data.remaining() < 8 {
        return Err(DecodeError::OutOfBounds);
    }
    let v0 = data.read_u32().unwrap();
    let v1 = data.read_u32().unwrap() == 1;
    Ok((v0, v1))
}

/// Reads a change of facing: unit, head direction, body direction.
pub fn game_unit_changed_dir(data: &mut InputMessage) -> (r: Result<(u32, u16, u8), DecodeError>)
    requires
        old(data).wf(),
    ensures
        final(data).wf(),
        final(data).bytes() == old(data).bytes(),
        match r {
            Ok(v) => {
                let b = old(data).bytes();
                let s = old(data).pos();
                old(data).has(7) && v == (le32(b, s) as u32, le16(b, s + 4) as u16, b[s + 6])
            },
            Err(e) => !old(data).has(7) && e == DecodeError::OutOfBounds,
        },
        r is Ok ==> final(data).pos() == old(data).pos() + 7,
        r is Err ==> final(data).pos() == old(data).pos(),
{
    if data.remaining() < 7 {
        return Err(DecodeError::OutOfBounds);
    }
    let v0 = data.read_u32().unwrap();
    let v1 = data.read_u16().unwrap();
    let v2 = data.read_u8().unwrap();
    Ok((v0, v1, v2))
}

} // verus!
