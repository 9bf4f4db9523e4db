//! The character list phase: the client presents its session, the server lists the
//! characters, the client picks one, and the server names the map server to go to.
use vstd::prelude::*;
use crate::bytes::{le16, le32, le64};
use crate::framer::{Frame, LengthPolicy, PacketLengthTable};
use crate::input_message::{DecodeError, InputMessage, latin1, until_nul};
use crate::network_message::{EncodeError, NetworkMessage, WireInt};
use crate::session::{PhaseError, ServerAddr, SessionContext};

verus! {

/// The packets that the client sends to the character server.
#[allow(non_camel_case_types)]
#[derive(Debug, Clone, Copy, PartialEq, Eq, Structural)]
pub enum CharListClient {
    ReqToConnect,
    ReqCharList,
    CharSelect,
}

impl CharListClient {
    /// The wire code.
    pub open spec fn spec_code(self) -> u16 {
        match self {
            CharListClient::ReqToConnect => 0x0065,
            CharListClient::ReqCharList => 0x09a1,
            CharListClient::CharSelect => 0x0066,
        }
    }

    pub fn code(self) -> (r: u16)
        ensures
            r == self.spec_code(),
    {
        match self {
            CharListClient::ReqToConnect => 0x0065,
            CharListClient::ReqCharList => 0x09a1,
            CharListClient::CharSelect => 0x0066,
        }
    }

    /// The variant with wire code `code`, if there is one.
    pub open spec fn spec_from_code(code: u16) -> Option<CharListClient> {
        if code == 0x0065 {
            Some(CharListClient::ReqToConnect)
        } else if code == 0x09a1 {
            Some(CharListClient::ReqCharList)
        } else if code == 0x0066 {
            Some(CharListClient::CharSelect)
        } else {
            None
        }
    }

    /// The variant with wire code `code`, if there is one.
    pub fn from_code(code: u16) -> (r: Option<CharListClient>)
        ensures
            r == Self::spec_from_code(code),
            match r {
                Some(e) => e.spec_code() == code,
                None => forall|e: CharListClient| #[trigger] e.spec_code() != code,
            },
    {
        match code {
            0x0065 => Some(CharListClient::ReqToConnect),
            0x09a1 => Some(CharListClient::ReqCharList),
            0x0066 => Some(CharListClient::CharSelect),
            _ => None,
        }
    }
}

/// The packets that the character server sends.
#[allow(non_camel_case_types)]
#[derive(Debug, Clone, Copy, PartialEq, Eq, Structural)]
pub enum CharListServer {
    WindowData,
    CharsData,
    Notify,
    BanCharacter,
    PinCodeState,
    AckCharInfoPerPage,
    MapData,
    MapServerNotReady,
}

impl CharListServer {
    /// The wire code.
    pub open spec fn spec_code(self) -> u16 {
        match self {
            CharListServer::WindowData => 0x082d,
            CharListServer::CharsData => 0x006b,
            CharListServer::Notify => 0x09a0,
            CharListServer::BanCharacter => 0x020d,
            CharListServer::PinCodeState => 0x08b9,
            CharListServer::AckCharInfoPerPage => 0x0b72,
            CharListServer::MapData => 0x0ac5,
            CharListServer::MapServerNotReady => 0x0840,
        }
    }

    pub fn code(self) -> (r: u16)
        ensures
            r == self.spec_code(),
    {
        match self {
            CharListServer::WindowData => 0x082d,
            CharListServer::CharsData => 0x006b,
            CharListServer::Notify => 0x09a0,
            CharListServer::BanCharacter => 0x020d,
            CharListServer::PinCodeState => 0x08b9,
            CharListServer::AckCharInfoPerPage => 0x0b72,
            CharListServer::MapData => 0x0ac5,
            CharListServer::MapServerNotReady => 0x0840,
        }
    }

    /// The variant with wire code `code`, if there is one.
    pub open spec fn spec_from_code(code: u16) -> Option<CharListServer> {
        if code == 0x082d {
            Some(CharListServer::WindowData)
        } else if code == 0x006b {
            Some(CharListServer::CharsData)
        } else if code == 0x09a0 {
            Some(CharListServer::Notify)
        } else if code == 0x020d {
            Some(CharListServer::BanCharacter)
        } else if code == 0x08b9 {
            Some(CharListServer::PinCodeState)
        } else if code == 0x0b72 {
            Some(CharListServer::AckCharInfoPerPage)
        } else if code == 0x0ac5 {
            Some(CharListServer::MapData)
        } else if code == 0x0840 {
            Some(CharListServer::MapServerNotReady)
        } else {
            None
        }
    }

    /// The variant with wire code `code`, if there is one.
    pub fn from_code(code: u16) -> (r: Option<CharListServer>)
        ensures
            r == Self::spec_from_code(code),
            match r {
                Some(e) => e.spec_code() == code,
                None => forall|e: CharListServer| #[trigger] e.spec_code() != code,
            },
    {
        match code {
            0x082d => Some(CharListServer::WindowData),
            0x006b => Some(CharListServer::CharsData),
            0x09a0 => Some(CharListServer::Notify),
            0x020d => Some(CharListServer::BanCharacter),
            0x08b9 => Some(CharListServer::PinCodeState),
            0x0b72 => Some(CharListServer::AckCharInfoPerPage),
            0x0ac5 => Some(CharListServer::MapData),
            0x0840 => Some(CharListServer::MapServerNotReady),
            _ => None,
        }
    }
}

/// The bytes of one character record.
pub const CHAR_INFO_LEN: usize = 175;

/// The lengths of the packets that the character server sends.
pub open spec fn char_list_lengths() -> Map<u16, LengthPolicy> {
    Map::empty().insert(0x082Du16, LengthPolicy::SentinelVariable).insert(
        0x006Bu16,
        LengthPolicy::SentinelVariable,
    ).insert(0x09A0u16, LengthPolicy::Fixed(4)).insert(0x020Du16, LengthPolicy::SentinelVariable).insert(
        0x08B9u16,
        LengthPolicy::Fixed(10),
    ).insert(0x0B72u16, LengthPolicy::SentinelVariable).insert(0x0AC5u16, LengthPolicy::Fixed(154)).insert(
        0x0840u16,
        LengthPolicy::Fixed(22),
    )
}

pub fn char_list_table() -> (r: PacketLengthTable)
    ensures
        r.map() == char_list_lengths(),
{
    let mut t = PacketLengthTable::new();
    t.insert(CharListServer::WindowData.code(), LengthPolicy::SentinelVariable);
    t.insert(CharListServer::CharsData.code(), LengthPolicy::SentinelVariable);
    t.insert(CharListServer::Notify.code(), LengthPolicy::Fixed(4));
    t.insert(CharListServer::BanCharacter.code(), LengthPolicy::SentinelVariable);
    t.insert(CharListServer::PinCodeState.code(), LengthPolicy::Fixed(10));
    t.insert(CharListServer::AckCharInfoPerPage.code(), LengthPolicy::SentinelVariable);
    t.insert(CharListServer::MapData.code(), LengthPolicy::Fixed(154));
    t.insert(CharListServer::MapServerNotReady.code(), LengthPolicy::Fixed(22));
    t
}

/// The request to enter the character server: opcode, account id, login id, session
/// token, two zero bytes and the gender.
pub fn char_list_reqconnect(session: &SessionContext) -> (r: NetworkMessage)
    ensures
        r.wf(),
        r.bytes() == 0x0065u16.le_bytes() + session.account_id.le_bytes() + session.login_id.le_bytes()
            + session.login_id_2.le_bytes() + 0u16.le_bytes() + session.gender.le_bytes(),
{
    let mut m = NetworkMessage::new();
    let _ = m.add(CharListClient::ReqToConnect.code());
    let _ = m.add(session.account_id);
    let _ = m.add(session.login_id);
    let _ = m.add(session.login_id_2);
    let _ = m.add(0u16);
    let _ = m.add(session.gender);
    m
}

/// The request for the character list: its opcode alone.
pub fn char_list_reqcharlist() -> (r: NetworkMessage)
    ensures
        r.wf(),
        r.bytes() == 0x09A1u16.le_bytes(),
{
    let mut m = NetworkMessage::new();
    let _ = m.add(CharListClient::ReqCharList.code());
    m
}

/// The choice of the character in slot `index`.
pub fn char_list_char_select(index: u8) -> (r: NetworkMessage)
    ensures
        r.wf(),
        r.bytes() == 0x0066u16.le_bytes() + index.le_bytes(),
{
    let mut m = NetworkMessage::new();
    let _ = m.add(CharListClient::CharSelect.code());
    let _ = m.add(index);
    m
}

/// The slot counts of the character window.
#[derive(Debug, Clone, Copy, PartialEq, Eq, Structural)]
pub struct WindowData {
    pub min_chars: u8,
    pub premium_chars: u8,
    pub billing_chars: u8,
    pub producible_chars: u8,
    pub max_chars: u8,
}

/// Reads the character window: five slot counts and 20 unused bytes.
pub fn char_list_window_data(data: &mut InputMessage) -> (r: Result<WindowData, DecodeError>)
    requires
        old(data).wf(),
    ensures
        final(data).wf(),
        final(data).bytes() == old(data).bytes(),
        match r {
            Ok(w) => {
                let b = old(data).bytes();
                let s = old(data).pos();
                &&& old(data).has(25)
                &&& final(data).pos() == s + 25
                &&& w == (WindowData {
                    min_chars: b[s],
                    premium_chars: b[s + 1],
                    billing_chars: b[s + 2],
                    producible_chars: b[s + 3],
                    max_chars: b[s + 4],
                })
            },
            Err(e) => !old(data).has(25) && e == DecodeError::OutOfBounds,
        },
{
    if data.remaining() < 25 {
        return Err(DecodeError::OutOfBounds);
    }
    let min_chars = data.read_u8().unwrap();
    let premium_chars = data.read_u8().unwrap();
    let billing_chars = data.read_u8().unwrap();
    let producible_chars = data.read_u8().unwrap();
    let max_chars = data.read_u8().unwrap();
    data.skip_bytes(20).unwrap();
    Ok(WindowData { min_chars, premium_chars, billing_chars, producible_chars, max_chars })
}

/// One character of the account.
#[derive(Debug, Clone, PartialEq, Eq)]
pub struct CharInfo {
    pub gid: u32,
    pub exp: u64,
    pub money: u32,
    pub job_exp: u64,
    pub job_level: u32,
    pub hp: u64,
    pub max_hp: u64,
    pub sp: u64,
    pub max_sp: u64,
    pub speed: u16,
    pub job: u16,
    pub head: u16,
    pub level: u16,
    pub name: String,
    pub char_num: u8,
    pub map_name: String,
    pub sex: u8,
}

/// `c` is the character record at offset `o` of `b`.
pub open spec fn char_info_at(c: CharInfo, b: Seq<u8>, o: int) -> bool {
    &&& c.gid == le32(b, o)
    &&& c.exp == le64(b, o + 4)
    &&& c.money == le32(b, o + 12)
    &&& c.job_exp == le64(b, o + 16)
    &&& c.job_level == le32(b, o + 24)
    &&& c.hp == le64(b, o + 50)
    &&& c.max_hp == le64(b, o + 58)
    &&& c.sp == le64(b, o + 66)
    &&& c.max_sp == le64(b, o + 74)
    &&& c.speed == le16(b, o + 82)
    &&& c.job == le16(b, o + 84)
    &&& c.head == le16(b, o + 86)
    &&& c.level == le16(b, o + 92)
    &&& c.name@ == latin1(until_nul(b.subrange(o + 108, o + 132)))
    &&& c.char_num == b[o + 138]
    &&& c.map_name@ == latin1(until_nul(b.subrange(o + 142, o + 158)))
    &&& c.sex == b[o + 174]
}

/// Reads one character record of 175 bytes.
pub fn read_char_info(data: &mut InputMessage) -> (r: Result<CharInfo, DecodeError>)
    requires
        old(data).wf(),
    ensures
        final(data).wf(),
        final(data).bytes() == old(data).bytes(),
        match r {
            Ok(c) => old(data).has(175) && char_info_at(c, old(data).bytes(), old(data).pos())
                && final(data).pos() == old(data).pos() + 175,
            Err(e) => !old(data).has(175) && e == DecodeError::OutOfBounds && final(data).pos()
                == old(data).pos(),
        },
{
    if data.remaining() < CHAR_INFO_LEN {
        return Err(DecodeError::OutOfBounds);
    }
    let gid = data.read_u32().unwrap();
    let exp = data.read_u64().unwrap();
    let money = data.read_u32().unwrap();
    let job_exp = data.read_u64().unwrap();
    let job_level = data.read_u32().unwrap();
    // body, health and effect state, virtue, honor, job points
    data.skip_bytes(22).unwrap();
    let hp = data.read_u64().unwrap();
    let max_hp = data.read_u64().unwrap();
    let sp = data.read_u64().unwrap();
    let max_sp = data.read_u64().unwrap();
    let speed = data.read_u16().unwrap();
    let job = data.read_u16().unwrap();
    let head = data.read_u16().unwrap();
    // body, weapon
    data.skip_bytes(4).unwrap();
    let level = data.read_u16().unwrap();
    // skill points, accessories, shield, palettes
    data.skip_bytes(14).unwrap();
    let name = data.read_string(Some(24)).unwrap();
    // the six base stats
    data.skip_bytes(6).unwrap();
    let char_num = data.read_u8().unwrap();
    // hair color, rename flag
    data.skip_bytes(3).unwrap();
    let map_name = data.read_string(Some(16)).unwrap();
    // deletion date, robe palette, slot and name change counts
    data.skip_bytes(16).unwrap();
    let sex = data.read_u8().unwrap();
    Ok(CharInfo {
        gid,
        exp,
        money,
        job_exp,
        job_level,
        hp,
        max_hp,
        sp,
        max_sp,
        speed,
        job,
        head,
        level,
        name,
        char_num,
        map_name,
        sex,
    })
}

/// Reads character records up to the end of the payload.
pub fn parse_char_info(data: &mut InputMessage) -> (r: Result<Vec<CharInfo>, DecodeError>)
    requires
        old(data).wf(),
    ensures
        final(data).wf(),
        final(data).bytes() == old(data).bytes(),
        match r {
            Ok(cs) => {
                let b = old(data).bytes();
                let s = old(data).pos();
                &&& (b.len() - s) % 175 == 0
                &&& cs@.len() * 175 == b.len() - s
                &&& final(data).pos() == b.len()
                &&& forall|i: int| 0 <= i < cs@.len() ==> char_info_at(#[trigger] cs@[i], b, s + 175 * i)
            },
            Err(e) => (old(data).bytes().len() - old(data).pos()) % 175 != 0 && e
                == DecodeError::OutOfBounds,
        },
{
    let ghost b = data.bytes();
    let ghost s = data.pos();
    let mut chars: Vec<CharInfo> = Vec::new();
    while !data.is_eof()
        invariant
            data.wf(),
            data.bytes() == b,
            b == old(data).bytes(),
            s == old(data).pos(),
            s <= data.pos() <= b.len(),
            data.pos() == s + 175 * chars@.len(),
            forall|i: int| 0 <= i < chars@.len() ==> char_info_at(#[trigger] chars@[i], b, s + 175 * i),
        decreases b.len() - data.pos(),
    {
        match read_char_info(data) {
            Ok(c) => {
                chars.push(c);
            },
            Err(e) => {
                proof {
                    vstd::arithmetic::div_mod::lemma_fundamental_div_mod_converse(
                        b.len() - s,
                        175,
                        chars@.len() as int,
                        b.len() - data.pos(),
                    );
                }
                return Err(e);
            },
        }
    }
    proof {
        vstd::arithmetic::div_mod::lemma_fundamental_div_mod_converse(b.len() - s, 175, chars@.len() as int, 0);
    }
    Ok(chars)
}

/// Reads the character list: three slot counts, 20 unused bytes, then character records.
pub fn char_list_chars_data(data: &mut InputMessage) -> (r: Result<Vec<CharInfo>, DecodeError>)
    requires
        old(data).wf(),
    ensures
        final(data).wf(),
        final(data).bytes() == old(data).bytes(),
        match r {
            Ok(cs) => {
                let b = old(data).bytes();
                let s = old(data).pos() + 23;
                &&& s <= b.len()
                &&& (b.len() - s) % 175 == 0
                &&& cs@.len() * 175 == b.len() - s
                &&& forall|i: int| 0 <= i < cs@.len() ==> char_info_at(#[trigger] cs@[i], b, s + 175 * i)
            },
            Err(e) => !(old(data).has(23) && (old(data).bytes().len() - old(data).pos() - 23) % 175
                == 0) && e == DecodeError::OutOfBounds,
        },
        r is Ok ==> final(data).pos() == old(data).bytes().len(),
{
    if data.remaining() < 23 {
        return Err(DecodeError::OutOfBounds);
    }
    let _max_chars = data.read_u8().unwrap();
    let _min_chars = data.read_u8().unwrap();
    let _premium_chars = data.read_u8().unwrap();
    data.skip_bytes(20).unwrap();
    parse_char_info(data)
}

/// Reads the number of pages of the character list.
pub fn char_list_notify(data: &mut InputMessage) -> (r: Result<u32, DecodeError>)
    requires
        old(data).wf(),
    ensures
        final(data).wf(),
        final(data).bytes() == old(data).bytes(),
        match r {
            Ok(v) => old(data).has(4) && v == le32(old(data).bytes(), old(data).pos()),
            Err(e) => !old(data).has(4) && e == DecodeError::OutOfBounds,
        },
        r is Ok ==> final(data).pos() == old(data).pos() + 4,
        r is Err ==> final(data).pos() == old(data).pos(),
{
    data.read_u32()
}

/// The entries of a ban list from offset `o` of `b`, as character id and text: each
/// entry is an id, and a nonzero id is followed by a text field of 20 bytes. `None` when
/// the entries do not end exactly at the end.
pub open spec fn ban_list_of(b: Seq<u8>, o: int) -> Option<Seq<(u32, Option<Seq<char>>)>>
    decreases b.len() - o,
{
    if o >= b.len() {
        Some(Seq::empty())
    } else if o + 4 > b.len() {
        None
    } else {
        let id = le32(b, o) as u32;
        let next = if id == 0 {
            o + 4
        } else {
            o + 24
        };
        let text = if id == 0 {
            None
        } else {
            Some(latin1(until_nul(b.subrange(o + 4, o + 24))))
        };
        if next > b.len() {
            None
        } else {
            match ban_list_of(b, next) {
                Some(rest) => Some(seq![(id, text)] + rest),
                None => None,
            }
        }
    }
}

/// One entry of a ban list.
#[derive(Debug, Clone, PartialEq, Eq)]
pub struct BanEntry {
    pub character_id: u32,
    /// The text that comes with a nonzero id.
    pub text: Option<String>,
}

impl BanEntry {
    pub open spec fn view(&self) -> (u32, Option<Seq<char>>) {
        (
            self.character_id,
            match self.text {
                Some(t) => Some(t@),
                None => None,
            },
        )
    }
}

/// Reads ban list entries up to the end of the payload.
pub fn char_list_ban_character(data: &mut InputMessage) -> (r: Result<Vec<BanEntry>, DecodeError>)
    requires
        old(data).wf(),
    ensures
        final(data).wf(),
        final(data).bytes() == old(data).bytes(),
        match r {
            Ok(es) => ban_list_of(old(data).bytes(), old(data).pos()) == Some(
                es@.map_values(|e: BanEntry| e.view()),
            ),
            Err(e) => ban_list_of(old(data).bytes(), old(data).pos()) is None && e
                == DecodeError::OutOfBounds,
        },
        r is Ok ==> final(data).pos() == old(data).bytes().len(),
{
    let ghost b = data.bytes();
    let ghost s = data.pos();
    let mut entries: Vec<BanEntry> = Vec::new();
    assert(entries@.map_values(|e: BanEntry| e.view()) + ban_list_of(b, s)->0 =~= ban_list_of(b, s)->0);
    loop
        invariant
            data.wf(),
            data.bytes() == b,
            b == old(data).bytes(),
            s == old(data).pos(),
            s <= data.pos() <= b.len(),
            ban_list_of(b, s) == match ban_list_of(b, data.pos()) {
                Some(rest) => Some(entries@.map_values(|e: BanEntry| e.view()) + rest),
                None => None::<Seq<(u32, Option<Seq<char>>)>>,
            },
        decreases b.len() - data.pos(),
    {
        if data.is_eof() {
            assert(entries@.map_values(|e: BanEntry| e.view()) + Seq::<(u32, Option<Seq<char>>)>::empty()
                =~= entries@.map_values(|e: BanEntry| e.view()));
            return Ok(entries);
        }
        let ghost o = data.pos();
        let character_id = match data.read_u32() {
            Ok(v) => v,
            Err(e) => return Err(e),
        };
        let text = if character_id != 0 {
            match data.read_string(Some(20)) {
                Ok(t) => Some(t),
                Err(e) => return Err(e),
            }
        } else {
            None
        };
        let ghost before = entries@.map_values(|e: BanEntry| e.view());
        assert(data.bytes().subrange(o + 4, o + 24) =~= b.subrange(o + 4, o + 24));
        entries.push(BanEntry { character_id, text });
        proof {
            let rest = ban_list_of(b, data.pos());
            if rest is Some {
                assert(entries@.map_values(|e: BanEntry| e.view()) + rest->0 =~= before + (seq![
                    entries@.last().view(),
                ] + rest->0));
            }
        }
    }
}

/// The state of the account's pin code.
#[derive(Debug, Clone, Copy, PartialEq, Eq, Structural)]
pub struct PinCodeState {
    pub seed: u32,
    pub account_id: u32,
    pub state: u16,
}

/// Reads the pin code state: seed, account id and state.
pub fn char_list_pin_code_state(data: &mut InputMessage) -> (r: Result<PinCodeState, DecodeError>)
    requires
        old(data).wf(),
    ensures
        final(data).wf(),
        final(data).bytes() == old(data).bytes(),
        match r {
            Ok(p) => {
                let b = old(data).bytes();
                let s = old(data).pos();
                &&& old(data).has(10)
                &&& p.seed == le32(b, s)
                &&& p.account_id == le32(b, s + 4)
                &&& p.state == le16(b, s + 8)
            },
            Err(e) => !old(data).has(10) && e == DecodeError::OutOfBounds,
        },
        r is Ok ==> final(data).pos() == old(data).pos() + 10,
        r is Err ==> final(data).pos() == old(data).pos(),
{
    if data.remaining() < 10 {
        return Err(DecodeError::OutOfBounds);
    }
    let seed = data.read_u32().unwrap();
    let account_id = data.read_u32().unwrap();
    let state = data.read_u16().unwrap();
    Ok(PinCodeState { seed, account_id, state })
}

/// Reads one page of character records.
pub fn char_list_ack_char_info_per_page(data: &mut InputMessage) -> (r: Result<Vec<CharInfo>, DecodeError>)
    requires
        old(data).wf(),
    ensures
        final(data).wf(),
        final(data).bytes() == old(data).bytes(),
        match r {
            Ok(cs) => {
                let b = old(data).bytes();
                let s = old(data).pos();
                &&& cs@.len() * 175 == b.len() - s
                &&& forall|i: int| 0 <= i < cs@.len() ==> char_info_at(#[trigger] cs@[i], b, s + 175 * i)
            },
            Err(e) => (old(data).bytes().len() - old(data).pos()) % 175 != 0 && e
                == DecodeError::OutOfBounds,
        },
        r is Ok ==> final(data).pos() == old(data).bytes().len(),
{
    parse_char_info(data)
}

/// Reads the notice that the map server is not ready: a code and 20 unused bytes.
pub fn char_list_map_server_not_ready(data: &mut InputMessage) -> (r: Result<u16, DecodeError>)
    requires
        old(data).wf(),
    ensures
        final(data).wf(),
        final(data).bytes() == old(data).bytes(),
        match r {
            Ok(v) => old(data).has(22) && v == le16(old(data).bytes(), old(data).pos()),
            Err(e) => !old(data).has(22) && e == DecodeError::OutOfBounds,
        },
        r is Ok ==> final(data).pos() == old(data).pos() + 22,
        r is Err ==> final(data).pos() == old(data).pos(),
{
    if data.remaining() < 22 {
        return Err(DecodeError::OutOfBounds);
    }
    let code = data.read_u16().unwrap();
    data.skip_bytes(20).unwrap();
    Ok(code)
}

/// Where the chosen character enters the game.
#[derive(Debug, Clone, PartialEq, Eq)]
pub struct MapData {
    pub char_id: u32,
    pub map_name: String,
    pub server: ServerAddr,
}

/// Reads the map server of the chosen character: character id, a map name of 16 bytes,
/// address and port, then 128 unused bytes.
pub fn char_list_map_data(data: &mut InputMessage) -> (r: Result<MapData, DecodeError>)
    requires
        old(data).wf(),
    ensures
        final(data).wf(),
        final(data).bytes() == old(data).bytes(),
        match r {
            Ok(m) => {
                let b = old(data).bytes();
                let s = old(data).pos();
                &&& old(data).has(154)
                &&& m.char_id == le32(b, s)
                &&& m.map_name@ == latin1(until_nul(b.subrange(s + 4, s + 20)))
                &&& m.server == (ServerAddr { ip: le32(b, s + 20) as u32, port: le16(b, s + 24) as u16 })
            },
            Err(e) => !old(data).has(154) && e == DecodeError::OutOfBounds,
        },
        r is Ok ==> final(data).pos() == old(data).pos() + 154,
        r is Err ==> final(data).pos() == old(data).pos(),
{
    if data.remaining() < 154 {
        return Err(DecodeError::OutOfBounds);
    }
    let char_id = data.read_u32().unwrap();
    let map_name = data.read_string(Some(16)).unwrap();
    let ip = data.read_u32().unwrap();
    let port = data.read_u16().unwrap();
    data.skip_bytes(128).unwrap();
    Ok(MapData { char_id, map_name, server: ServerAddr { ip, port } })
}

/// What the character list phase does after a packet.
pub enum CharListStep {
    /// Send these packets, in order, and keep listening.
    Continue(Vec<NetworkMessage>),
    /// The phase ends: the game phase starts at `server` with `session`.
    EnterGame { server: ServerAddr, session: SessionContext },
}

/// A decision of the character list phase as a value.
pub enum CharListPlan {
    Continue(Seq<Seq<u8>>),
    EnterGame(ServerAddr, SessionContext),
    Fail(PhaseError),
}

pub open spec fn char_list_plan_of(r: Result<CharListStep, PhaseError>) -> CharListPlan {
    match r {
        Ok(CharListStep::Continue(ms)) => CharListPlan::Continue(crate::network_message::messages_bytes(ms@)),
        Ok(CharListStep::EnterGame { server, session }) => CharListPlan::EnterGame(server, session),
        Err(e) => CharListPlan::Fail(e),
    }
}

/// What the phase must do on a packet with opcode `op` and payload `p`.
pub open spec fn char_list_plan(op: u16, p: Seq<u8>, session: SessionContext) -> CharListPlan {
    let short = CharListPlan::Fail(PhaseError::Decode(DecodeError::OutOfBounds));
    let go_on = CharListPlan::Continue(Seq::empty());
    if op == 0x082D {
        if p.len() >= 25 { go_on } else { short }
    } else if op == 0x006B {
        if p.len() >= 23 && (p.len() - 23) % 175 == 0 { go_on } else { short }
    } else if op == 0x09A0 {
        if p.len() >= 4 { go_on } else { short }
    } else if op == 0x020D {
        if ban_list_of(p, 0) is Some { go_on } else { short }
    } else if op == 0x08B9 {
        if p.len() >= 10 {
            CharListPlan::Continue(seq![0x09A1u16.le_bytes()])
        } else {
            short
        }
    } else if op == 0x0B72 {
        if p.len() % 175 == 0 {
            CharListPlan::Continue(seq![0x0066u16.le_bytes() + 0u8.le_bytes()])
        } else {
            short
        }
    } else if op == 0x0840 {
        if p.len() >= 22 { go_on } else { short }
    } else if op == 0x0AC5 {
        if p.len() >= 154 {
            CharListPlan::EnterGame(
                ServerAddr { ip: le32(p, 20) as u32, port: le16(p, 24) as u16 },
                SessionContext { char_id: le32(p, 0) as u32, ..session },
            )
        } else {
            short
        }
    } else {
        CharListPlan::Fail(PhaseError::UnknownOpcode(op))
    }
}

fn decoded<T>(r: Result<T, DecodeError>) -> (out: Result<CharListStep, PhaseError>)
    ensures
        match r {
            Ok(_) => out matches Ok(CharListStep::Continue(ms)) && crate::network_message::messages_bytes(ms@)
                == Seq::<Seq<u8>>::empty(),
            Err(e) => out == Err::<CharListStep, PhaseError>(PhaseError::Decode(e)),
        },
{
    match r {
        Ok(_) => {
            let ms: Vec<NetworkMessage> = Vec::new();
            assert(crate::network_message::messages_bytes(ms@) =~= Seq::<Seq<u8>>::empty());
            Ok(CharListStep::Continue(ms))
        },
        Err(e) => Err(PhaseError::Decode(e)),
    }
}

/// Decides on one packet of the character list phase: a pin code state asks for the
/// character list, a page of characters selects the first slot, and the map data ends
/// the phase.
pub fn char_list_packet_handler(frame: &Frame, session: &SessionContext) -> (r: Result<
    CharListStep,
    PhaseError,
>)
    ensures
        char_list_plan_of(r) == char_list_plan(frame.opcode, frame.payload@, *session),
{
    let mut data = InputMessage::new(frame.payload.clone());
    let r = match CharListServer::from_code(frame.opcode) {
        Some(CharListServer::WindowData) => decoded(char_list_window_data(&mut data)),
        Some(CharListServer::CharsData) => decoded(char_list_chars_data(&mut data)),
        Some(CharListServer::Notify) => decoded(char_list_notify(&mut data)),
        Some(CharListServer::BanCharacter) => decoded(char_list_ban_character(&mut data)),
        Some(CharListServer::PinCodeState) => match char_list_pin_code_state(&mut data) {
            Ok(_) => {
                let ms = vec![char_list_reqcharlist()];
                assert(crate::network_message::messages_bytes(ms@) =~= seq![0x09A1u16.le_bytes()]);
                Ok(CharListStep::Continue(ms))
            },
            Err(e) => Err(PhaseError::Decode(e)),
        },
        Some(CharListServer::AckCharInfoPerPage) => match char_list_ack_char_info_per_page(&mut data) {
            Ok(_) => {
                let ms = vec![char_list_char_select(0)];
                assert(crate::network_message::messages_bytes(ms@) =~= seq![0x0066u16.le_bytes() + 0u8.le_bytes()]);
                Ok(CharListStep::Continue(ms))
            },
            Err(e) => Err(PhaseError::Decode(e)),
        },
        Some(CharListServer::MapServerNotReady) => decoded(char_list_map_server_not_ready(&mut data)),
        Some(CharListServer::MapData) => match char_list_map_data(&mut data) {
            Ok(m) => Ok(
                CharListStep::EnterGame {
                    server: m.server,
                    session: SessionContext {
                        account_id: session.account_id,
                        login_id: session.login_id,
                        login_id_2: session.login_id_2,
                        gender: session.gender,
                        char_id: m.char_id,
                    },
                },
            ),
            Err(e) => Err(PhaseError::Decode(e)),
        },
        None => Err(PhaseError::UnknownOpcode(frame.opcode)),
    };
    r
}

} // verus!
