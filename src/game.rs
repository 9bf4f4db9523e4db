//! The game phase: the client enters the map server, takes in the state of its character
//! and the map, and answers when the map is ready.
use vstd::prelude::*;
use crate::bytes::{le16, le32, le16_bytes};
use crate::framer::{Frame, LengthPolicy, PacketLengthTable};
use crate::game_packets::{
    couple_status_of, game_all_achievements_data, game_auth_ok, game_change_map, game_character_status,
    game_couple_status, game_display_message, game_equip_switch_list, game_inventory_equip_item,
    game_inventory_start, game_param_change, game_quests_state_list, game_screen_active_esft,
    game_shortcuts_key_list, game_single_achievement_data, game_skill_tree, game_sprite_change,
    game_unit_idle, game_update_status, param_change_of, quests_end, update_status_of,
    game_atk_range, game_configuration_change, game_equip_window_open, game_inventory_end,
    game_inventory_expansion_info, game_long_parameter_change, game_mail_unread, game_map_block_list,
    game_map_property, game_notify_change_status, game_party_invitation_state, game_unit_changed_dir,
    game_weight_limit,
};
use crate::input_message::{DecodeError, InputMessage};
use crate::network_message::{EncodeError, NetworkMessage, WireInt, MAX_MESSAGE_LEN, messages_bytes};
use crate::session::{PhaseError, SessionContext};
use vstd::string::StringSliceAdditionalSpecFns;

verus! {

/// The packets that the client sends to the map server.
#[allow(non_camel_case_types)]
#[derive(Debug, Clone, Copy, PartialEq, Eq, Structural)]
pub enum GameClient {
    ConnectMapServer,
    RequestAction,
    EffectsOption,
    AckMap,
    ClientTick,
    ChangeDir,
    ChatMessage,
}

impl GameClient {
    /// The wire code.
    pub open spec fn spec_code(self) -> u16 {
        match self {
            GameClient::ConnectMapServer => 0x0436,
            GameClient::RequestAction => 0x0437,
            GameClient::EffectsOption => 0x021d,
            GameClient::AckMap => 0x007d,
            GameClient::ClientTick => 0x0360,
            GameClient::ChangeDir => 0x0361,
            GameClient::ChatMessage => 0x00f3,
        }
    }

    pub fn code(self) -> (r: u16)
        ensures
            r == self.spec_code(),
    {
        match self {
            GameClient::ConnectMapServer => 0x0436,
            GameClient::RequestAction => 0x0437,
            GameClient::EffectsOption => 0x021d,
            GameClient::AckMap => 0x007d,
            GameClient::ClientTick => 0x0360,
            GameClient::ChangeDir => 0x0361,
            GameClient::ChatMessage => 0x00f3,
        }
    }

    /// The variant with wire code `code`, if there is one.
    pub open spec fn spec_from_code(code: u16) -> Option<GameClient> {
        if code == 0x0436 {
            Some(GameClient::ConnectMapServer)
        } else if code == 0x0437 {
            Some(GameClient::RequestAction)
        } else if code == 0x021d {
            Some(GameClient::EffectsOption)
        } else if code == 0x007d {
            Some(GameClient::AckMap)
        } else if code == 0x0360 {
            Some(GameClient::ClientTick)
        } else if code == 0x0361 {
            Some(GameClient::ChangeDir)
        } else if code == 0x00f3 {
            Some(GameClient::ChatMessage)
        } else {
            None
        }
    }

    /// The variant with wire code `code`, if there is one.
    pub fn from_code(code: u16) -> (r: Option<GameClient>)
        ensures
            r == Self::spec_from_code(code),
            match r {
                Some(e) => e.spec_code() == code,
                None => forall|e: GameClient| #[trigger] e.spec_code() != code,
            },
    {
        match code {
            0x0436 => Some(GameClient::ConnectMapServer),
            0x0437 => Some(GameClient::RequestAction),
            0x021d => Some(GameClient::EffectsOption),
            0x007d => Some(GameClient::AckMap),
            0x0360 => Some(GameClient::ClientTick),
            0x0361 => Some(GameClient::ChangeDir),
            0x00f3 => Some(GameClient::ChatMessage),
            _ => None,
        }
    }
}

/// The packets that the map server sends.
#[allow(non_camel_case_types)]
#[derive(Debug, Clone, Copy, PartialEq, Eq, Structural)]
pub enum GameServer {
    MapBlockList,
    InventoryExpansionInfo,
    NotifyChangeStatus,
    AuthOk,
    DisplayMessage,
    ChangeMap,
    ParameterChange,
    CoupleStatus,
    AtkRange,
    MailUnread,
    QuestsStateList,
    SingleAchievementData,
    AllAchievementsData,
    WeightLimit,
    SpriteChange,
    InventoryStart,
    InventoryType,
    InventoryEnd,
    EquipSwitchList,
    MapProperty,
    UnitIdle,
    ScreenActiveEFST,
    SkillTree,
    ShortcutsKeyList,
    LongParameterChange,
    CharacterStatus,
    UpdateStatus,
    PartyInvitationState,
    EquipWindowOpen,
    ConfigurationChange,
    UnitChangedDir,
}

impl GameServer {
    /// The wire code.
    pub open spec fn spec_code(self) -> u16 {
        match self {
            GameServer::MapBlockList => 0x0283,
            GameServer::InventoryExpansionInfo => 0x0b18,
            GameServer::NotifyChangeStatus => 0x02ce,
            GameServer::AuthOk => 0x02eb,
            GameServer::DisplayMessage => 0x008e,
            GameServer::ChangeMap => 0x0091,
            GameServer::ParameterChange => 0x00b0,
            GameServer::CoupleStatus => 0x0141,
            GameServer::AtkRange => 0x013a,
            GameServer::MailUnread => 0x09e7,
            GameServer::QuestsStateList => 0x09f8,
            GameServer::SingleAchievementData => 0x0a24,
            GameServer::AllAchievementsData => 0x0a23,
            GameServer::WeightLimit => 0x0ade,
            GameServer::SpriteChange => 0x01d7,
            GameServer::InventoryStart => 0x0b08,
            GameServer::InventoryType => 0x0b39,
            GameServer::InventoryEnd => 0x0b0b,
            GameServer::EquipSwitchList => 0x0a9b,
            GameServer::MapProperty => 0x099b,
            GameServer::UnitIdle => 0x09ff,
            GameServer::ScreenActiveEFST => 0x0984,
            GameServer::SkillTree => 0x010f,
            GameServer::ShortcutsKeyList => 0x0b20,
            GameServer::LongParameterChange => 0x0acb,
            GameServer::CharacterStatus => 0x00bd,
            GameServer::UpdateStatus => 0x00be,
            GameServer::PartyInvitationState => 0x02c9,
            GameServer::EquipWindowOpen => 0x02da,
            GameServer::ConfigurationChange => 0x02d9,
            GameServer::UnitChangedDir => 0x009c,
        }
    }

    pub fn code(self) -> (r: u16)
        ensures
            r == self.spec_code(),
    {
        match self {
            GameServer::MapBlockList => 0x0283,
            GameServer::InventoryExpansionInfo => 0x0b18,
            GameServer::NotifyChangeStatus => 0x02ce,
            GameServer::AuthOk => 0x02eb,
            GameServer::DisplayMessage => 0x008e,
            GameServer::ChangeMap => 0x0091,
            GameServer::ParameterChange => 0x00b0,
            GameServer::CoupleStatus => 0x0141,
            GameServer::AtkRange => 0x013a,
            GameServer::MailUnread => 0x09e7,
            GameServer::QuestsStateList => 0x09f8,
            GameServer::SingleAchievementData => 0x0a24,
            GameServer::AllAchievementsData => 0x0a23,
            GameServer::WeightLimit => 0x0ade,
            GameServer::SpriteChange => 0x01d7,
            GameServer::InventoryStart => 0x0b08,
            GameServer::InventoryType => 0x0b39,
            GameServer::InventoryEnd => 0x0b0b,
            GameServer::EquipSwitchList => 0x0a9b,
            GameServer::MapProperty => 0x099b,
            GameServer::UnitIdle => 0x09ff,
            GameServer::ScreenActiveEFST => 0x0984,
            GameServer::SkillTree => 0x010f,
            GameServer::ShortcutsKeyList => 0x0b20,
            GameServer::LongParameterChange => 0x0acb,
            GameServer::CharacterStatus => 0x00bd,
            GameServer::UpdateStatus => 0x00be,
            GameServer::PartyInvitationState => 0x02c9,
            GameServer::EquipWindowOpen => 0x02da,
            GameServer::ConfigurationChange => 0x02d9,
            GameServer::UnitChangedDir => 0x009c,
        }
    }

    /// The variant with wire code `code`, if there is one.
    pub open spec fn spec_from_code(code: u16) -> Option<GameServer> {
        if code == 0x0283 {
            Some(GameServer::MapBlockList)
        } else if code == 0x0b18 {
            Some(GameServer::InventoryExpansionInfo)
        } else if code == 0x02ce {
            Some(GameServer::NotifyChangeStatus)
        } else if code == 0x02eb {
            Some(GameServer::AuthOk)
        } else if code == 0x008e {
            Some(GameServer::DisplayMessage)
        } else if code == 0x0091 {
            Some(GameServer::ChangeMap)
        } else if code == 0x00b0 {
            Some(GameServer::ParameterChange)
        } else if code == 0x0141 {
            Some(GameServer::CoupleStatus)
        } else if code == 0x013a {
            Some(GameServer::AtkRange)
        } else if code == 0x09e7 {
            Some(GameServer::MailUnread)
        } else if code == 0x09f8 {
            Some(GameServer::QuestsStateList)
        } else if code == 0x0a24 {
            Some(GameServer::SingleAchievementData)
        } else if code == 0x0a23 {
            Some(GameServer::AllAchievementsData)
        } else if code == 0x0ade {
            Some(GameServer::WeightLimit)
        } else if code == 0x01d7 {
            Some(GameServer::SpriteChange)
        } else if code == 0x0b08 {
            Some(GameServer::InventoryStart)
        } else if code == 0x0b39 {
            Some(GameServer::InventoryType)
        } else if code == 0x0b0b {
            Some(GameServer::InventoryEnd)
        } else if code == 0x0a9b {
            Some(GameServer::EquipSwitchList)
        } else if code == 0x099b {
            Some(GameServer::MapProperty)
        } else if code == 0x09ff {
            Some(GameServer::UnitIdle)
        } else if code == 0x0984 {
            Some(GameServer::ScreenActiveEFST)
        } else if code == 0x010f {
            Some(GameServer::SkillTree)
        } else if code == 0x0b20 {
            Some(GameServer::ShortcutsKeyList)
        } else if code == 0x0acb {
            Some(GameServer::LongParameterChange)
        } else if code == 0x00bd {
            Some(GameServer::CharacterStatus)
        } else if code == 0x00be {
            Some(GameServer::UpdateStatus)
        } else if code == 0x02c9 {
            Some(GameServer::PartyInvitationState)
        } else if code == 0x02da {
            Some(GameServer::EquipWindowOpen)
        } else if code == 0x02d9 {
            Some(GameServer::ConfigurationChange)
        } else if code == 0x009c {
            Some(GameServer::UnitChangedDir)
        } else {
            None
        }
    }

    /// The variant with wire code `code`, if there is one.
    pub fn from_code(code: u16) -> (r: Option<GameServer>)
        ensures
            r == Self::spec_from_code(code),
            match r {
                Some(e) => e.spec_code() == code,
                None => forall|e: GameServer| #[trigger] e.spec_code() != code,
            },
    {
        match code {
            0x0283 => Some(GameServer::MapBlockList),
            0x0b18 => Some(GameServer::InventoryExpansionInfo),
            0x02ce => Some(GameServer::NotifyChangeStatus),
            0x02eb => Some(GameServer::AuthOk),
            0x008e => Some(GameServer::DisplayMessage),
            0x0091 => Some(GameServer::ChangeMap),
            0x00b0 => Some(GameServer::ParameterChange),
            0x0141 => Some(GameServer::CoupleStatus),
            0x013a => Some(GameServer::AtkRange),
            0x09e7 => Some(GameServer::MailUnread),
            0x09f8 => Some(GameServer::QuestsStateList),
            0x0a24 => Some(GameServer::SingleAchievementData),
            0x0a23 => Some(GameServer::AllAchievementsData),
            0x0ade => Some(GameServer::WeightLimit),
            0x01d7 => Some(GameServer::SpriteChange),
            0x0b08 => Some(GameServer::InventoryStart),
            0x0b39 => Some(GameServer::InventoryType),
            0x0b0b => Some(GameServer::InventoryEnd),
            0x0a9b => Some(GameServer::EquipSwitchList),
            0x099b => Some(GameServer::MapProperty),
            0x09ff => Some(GameServer::UnitIdle),
            0x0984 => Some(GameServer::ScreenActiveEFST),
            0x010f => Some(GameServer::SkillTree),
            0x0b20 => Some(GameServer::ShortcutsKeyList),
            0x0acb => Some(GameServer::LongParameterChange),
            0x00bd => Some(GameServer::CharacterStatus),
            0x00be => Some(GameServer::UpdateStatus),
            0x02c9 => Some(GameServer::PartyInvitationState),
            0x02da => Some(GameServer::EquipWindowOpen),
            0x02d9 => Some(GameServer::ConfigurationChange),
            0x009c => Some(GameServer::UnitChangedDir),
            _ => None,
        }
    }
}

/// The lengths of the packets that the map server sends.
pub open spec fn game_lengths() -> Map<u16, LengthPolicy> {
    Map::empty()
        .insert(0x0283u16, LengthPolicy::Fixed(4))
        .insert(0x0b18u16, LengthPolicy::Fixed(2))
        .insert(0x02ceu16, LengthPolicy::Fixed(8))
        .insert(0x02ebu16, LengthPolicy::Fixed(11))
        .insert(0x008eu16, LengthPolicy::SentinelVariable)
        .insert(0x0091u16, LengthPolicy::Fixed(20))
        .insert(0x00b0u16, LengthPolicy::Fixed(6))
        .insert(0x0141u16, LengthPolicy::Fixed(12))
        .insert(0x013au16, LengthPolicy::Fixed(2))
        .insert(0x09e7u16, LengthPolicy::Fixed(1))
        .insert(0x09f8u16, LengthPolicy::SentinelVariable)
        .insert(0x0a24u16, LengthPolicy::Fixed(64))
        .insert(0x0a23u16, LengthPolicy::SentinelVariable)
        .insert(0x0adeu16, LengthPolicy::Fixed(4))
        .insert(0x01d7u16, LengthPolicy::Fixed(13))
        .insert(0x0b08u16, LengthPolicy::SentinelVariable)
        .insert(0x0b39u16, LengthPolicy::SentinelVariable)
        .insert(0x0b0bu16, LengthPolicy::Fixed(2))
        .insert(0x0a9bu16, LengthPolicy::SentinelVariable)
        .insert(0x099bu16, LengthPolicy::Fixed(6))
        .insert(0x09ffu16, LengthPolicy::SentinelVariable)
        .insert(0x0984u16, LengthPolicy::Fixed(26))
        .insert(0x010fu16, LengthPolicy::SentinelVariable)
        .insert(0x0b20u16, LengthPolicy::Fixed(269))
        .insert(0x0acbu16, LengthPolicy::Fixed(10))
        .insert(0x00bdu16, LengthPolicy::Fixed(42))
        .insert(0x00beu16, LengthPolicy::Fixed(3))
        .insert(0x02c9u16, LengthPolicy::Fixed(1))
        .insert(0x02dau16, LengthPolicy::Fixed(1))
        .insert(0x02d9u16, LengthPolicy::Fixed(8))
        .insert(0x009cu16, LengthPolicy::Fixed(7))
}

pub fn game_table() -> (r: PacketLengthTable)
    ensures
        r.map() == game_lengths(),
{
    let mut t = PacketLengthTable::new();
    t.insert(GameServer::MapBlockList.code(), LengthPolicy::Fixed(4));
    t.insert(GameServer::InventoryExpansionInfo.code(), LengthPolicy::Fixed(2));
    t.insert(GameServer::NotifyChangeStatus.code(), LengthPolicy::Fixed(8));
    t.insert(GameServer::AuthOk.code(), LengthPolicy::Fixed(11));
    t.insert(GameServer::DisplayMessage.code(), LengthPolicy::SentinelVariable);
    t.insert(GameServer::ChangeMap.code(), LengthPolicy::Fixed(20));
    t.insert(GameServer::ParameterChange.code(), LengthPolicy::Fixed(6));
    t.insert(GameServer::CoupleStatus.code(), LengthPolicy::Fixed(12));
    t.insert(GameServer::AtkRange.code(), LengthPolicy::Fixed(2));
    t.insert(GameServer::MailUnread.code(), LengthPolicy::Fixed(1));
    t.insert(GameServer::QuestsStateList.code(), LengthPolicy::SentinelVariable);
    t.insert(GameServer::SingleAchievementData.code(), LengthPolicy::Fixed(64));
    t.insert(GameServer::AllAchievementsData.code(), LengthPolicy::SentinelVariable);
    t.insert(GameServer::WeightLimit.code(), LengthPolicy::Fixed(4));
    t.insert(GameServer::SpriteChange.code(), LengthPolicy::Fixed(13));
    t.insert(GameServer::InventoryStart.code(), LengthPolicy::SentinelVariable);
    t.insert(GameServer::InventoryType.code(), LengthPolicy::SentinelVariable);
    t.insert(GameServer::InventoryEnd.code(), LengthPolicy::Fixed(2));
    t.insert(GameServer::EquipSwitchList.code(), LengthPolicy::SentinelVariable);
    t.insert(GameServer::MapProperty.code(), LengthPolicy::Fixed(6));
    t.insert(GameServer::UnitIdle.code(), LengthPolicy::SentinelVariable);
    t.insert(GameServer::ScreenActiveEFST.code(), LengthPolicy::Fixed(26));
    t.insert(GameServer::SkillTree.code(), LengthPolicy::SentinelVariable);
    t.insert(GameServer::ShortcutsKeyList.code(), LengthPolicy::Fixed(269));
    t.insert(GameServer::LongParameterChange.code(), LengthPolicy::Fixed(10));
    t.insert(GameServer::CharacterStatus.code(), LengthPolicy::Fixed(42));
    t.insert(GameServer::UpdateStatus.code(), LengthPolicy::Fixed(3));
    t.insert(GameServer::PartyInvitationState.code(), LengthPolicy::Fixed(1));
    t.insert(GameServer::EquipWindowOpen.code(), LengthPolicy::Fixed(1));
    t.insert(GameServer::ConfigurationChange.code(), LengthPolicy::Fixed(8));
    t.insert(GameServer::UnitChangedDir.code(), LengthPolicy::Fixed(7));
    t
}

/// Entering the map server: opcode, account id, character id, login id, the client clock
/// widened to eight bytes, and the gender.
pub fn game_connect_map_server(session: &SessionContext, client_tick: u32) -> (r: NetworkMessage)
    ensures
        r.wf(),
        r.bytes() == 0x0436u16.le_bytes() + session.account_id.le_bytes() + session.char_id.le_bytes()
            + session.login_id.le_bytes() + (client_tick as u64).le_bytes() + session.gender.le_bytes(),
{
    let mut m = NetworkMessage::new();
    let _ = m.add(GameClient::ConnectMapServer.code());
    let _ = m.add(session.account_id);
    let _ = m.add(session.char_id);
    let _ = m.add(session.login_id);
    let _ = m.add(client_tick as u64);
    let _ = m.add(session.gender);
    m
}

/// An action on a target: opcode, target id, action type.
pub fn game_request_action(target_id: u32, action_type: u8) -> (r: NetworkMessage)
    ensures
        r.wf(),
        r.bytes() == 0x0437u16.le_bytes() + target_id.le_bytes() + action_type.le_bytes(),
{
    let mut m = NetworkMessage::new();
    let _ = m.add(GameClient::RequestAction.code());
    let _ = m.add(target_id);
    let _ = m.add(action_type);
    m
}

/// The effects option: opcode and the option word.
pub fn game_request_effects_option(effects_option: u32) -> (r: NetworkMessage)
    ensures
        r.wf(),
        r.bytes() == 0x021Du16.le_bytes() + effects_option.le_bytes(),
{
    let mut m = NetworkMessage::new();
    let _ = m.add(GameClient::EffectsOption.code());
    let _ = m.add(effects_option);
    m
}

/// The notice that the client has loaded the map: its opcode alone.
pub fn game_request_ack_map() -> (r: NetworkMessage)
    ensures
        r.wf(),
        r.bytes() == 0x007Du16.le_bytes(),
{
    let mut m = NetworkMessage::new();
    let _ = m.add(GameClient::AckMap.code());
    m
}

/// The client clock: opcode and tick.
pub fn game_request_client_tick(tick: u32) -> (r: NetworkMessage)
    ensures
        r.wf(),
        r.bytes() == 0x0360u16.le_bytes() + tick.le_bytes(),
{
    let mut m = NetworkMessage::new();
    let _ = m.add(GameClient::ClientTick.code());
    let _ = m.add(tick);
    m
}

/// A change of facing: opcode, head direction, body direction.
pub fn game_request_change_dir(head_dir: u16, dir: u8) -> (r: NetworkMessage)
    ensures
        r.wf(),
        r.bytes() == 0x0361u16.le_bytes() + head_dir.le_bytes() + dir.le_bytes(),
{
    let mut m = NetworkMessage::new();
    let _ = m.add(GameClient::ChangeDir.code());
    let _ = m.add(head_dir);
    let _ = m.add(dir);
    m
}

/// The separator between the sender and the text of a chat message: " : ".
pub open spec fn chat_separator() -> Seq<u8> {
    seq![0x20u8, 0x3Au8, 0x20u8]
}

/// The length of a chat message packet from `sender` with `message`.
pub open spec fn chat_len(sender: Seq<u8>, message: Seq<u8>) -> int {
    4 + sender.len() as int + 3 + message.len() as int + 1
}

/// A public chat message: opcode, the packet's total length, then "sender : message" and
/// a terminator. The length is written once the text is in.
pub fn game_request_chat_message(sender: &str, message: &str) -> (r: Result<NetworkMessage, EncodeError>)
    ensures
        match r {
            Ok(m) => chat_len(sender.spec_bytes(), message.spec_bytes()) <= MAX_MESSAGE_LEN && m.bytes()
                == 0x00F3u16.le_bytes() + le16_bytes(chat_len(sender.spec_bytes(), message.spec_bytes()) as u16)
                + sender.spec_bytes() + chat_separator() + message.spec_bytes() + seq![0u8],
            Err(e) => chat_len(sender.spec_bytes(), message.spec_bytes()) > MAX_MESSAGE_LEN && e
                == EncodeError::Overflow,
        },
{
    let sb = sender.as_bytes();
    let mb = message.as_bytes();
    if sb.len() > MAX_MESSAGE_LEN || mb.len() > MAX_MESSAGE_LEN - sb.len() || sb.len() + mb.len() > MAX_MESSAGE_LEN - 8 {
        return Err(EncodeError::Overflow);
    }
    let mut m = NetworkMessage::new();
    let _ = m.add(GameClient::ChatMessage.code());
    let _ = m.add(0u16);
    let _ = m.add_bytes(sb);
    let _ = m.add(0x20u8);
    let _ = m.add(0x3Au8);
    let _ = m.add(0x20u8);
    let _ = m.add_string(message);
    let total = m.length() as u16;
    let _ = m.patch_u16(2, total);
    assert(m.bytes() =~= 0x00F3u16.le_bytes() + le16_bytes(total) + sender.spec_bytes() + chat_separator()
        + message.spec_bytes() + seq![0u8]);
    Ok(m)
}

/// A decision of the game phase as a value: the packets to send, in order, or why the
/// connection must end.
pub enum GamePlan {
    Continue(Seq<Seq<u8>>),
    Fail(PhaseError),
}

pub open spec fn game_plan_of(r: Result<Vec<NetworkMessage>, PhaseError>) -> GamePlan {
    match r {
        Ok(ms) => GamePlan::Continue(messages_bytes(ms@)),
        Err(e) => GamePlan::Fail(e),
    }
}

/// Goes on without a reply when the payload has at least `n` bytes.
pub open spec fn need(p: Seq<u8>, n: int) -> GamePlan {
    if p.len() >= n {
        GamePlan::Continue(Seq::empty())
    } else {
        GamePlan::Fail(PhaseError::Decode(DecodeError::OutOfBounds))
    }
}

/// Goes on without a reply when `ok` holds.
pub open spec fn go_on_if(ok: bool) -> GamePlan {
    if ok {
        GamePlan::Continue(Seq::empty())
    } else {
        GamePlan::Fail(PhaseError::Decode(DecodeError::OutOfBounds))
    }
}

/// Goes on without a reply, or fails as `r` does.
pub open spec fn go_on_unless<T>(r: Result<T, PhaseError>) -> GamePlan {
    match r {
        Ok(_) => GamePlan::Continue(Seq::empty()),
        Err(e) => GamePlan::Fail(e),
    }
}

/// What the phase must do on a packet with opcode `op` and payload `p`. The weight limit
/// is the server's sign that the map is loaded: the client answers with its effects option
/// and then with the acknowledgement of the map.
pub open spec fn game_plan(op: u16, p: Seq<u8>) -> GamePlan {
    if op == 0x0283 { need(p, 4) }
    else if op == 0x0B18 { need(p, 2) }
    else if op == 0x02CE { need(p, 8) }
    else if op == 0x02EB { need(p, 11) }
    else if op == 0x008E { GamePlan::Continue(Seq::empty()) }
    else if op == 0x0091 { need(p, 20) }
    else if op == 0x00B0 { go_on_unless(param_change_of(p, 0)) }
    else if op == 0x0141 { go_on_unless(couple_status_of(p, 0)) }
    else if op == 0x013A { need(p, 2) }
    else if op == 0x09E7 { need(p, 1) }
    else if op == 0x09F8 { go_on_if(p.len() >= 4 && quests_end(p, 4, le32(p, 0) as nat) is Some) }
    else if op == 0x0A24 { need(p, 64) }
    else if op == 0x0A23 { go_on_if(p.len() >= 18 && 18 + 50 * le32(p, 0) <= p.len()) }
    else if op == 0x0ADE {
        if p.len() >= 4 {
            GamePlan::Continue(seq![0x021Du16.le_bytes() + 0u32.le_bytes(), 0x007Du16.le_bytes()])
        } else {
            GamePlan::Fail(PhaseError::Decode(DecodeError::OutOfBounds))
        }
    }
    else if op == 0x01D7 { need(p, 13) }
    else if op == 0x0B08 { need(p, 1) }
    else if op == 0x0B39 { go_on_if(p.len() >= 1 && (p.len() - 1) % 68 == 0) }
    else if op == 0x0B0B { need(p, 2) }
    else if op == 0x0A9B { go_on_if(p.len() % 6 == 0) }
    else if op == 0x099B { need(p, 6) }
    else if op == 0x09FF { need(p, 104) }
    else if op == 0x0984 { need(p, 26) }
    else if op == 0x010F { go_on_if(p.len() % 37 == 0) }
    else if op == 0x0B20 { need(p, 269) }
    else if op == 0x0ACB { need(p, 10) }
    else if op == 0x00BD { need(p, 42) }
    else if op == 0x00BE { go_on_unless(update_status_of(p, 0)) }
    else if op == 0x02C9 { need(p, 1) }
    else if op == 0x02DA { need(p, 1) }
    else if op == 0x02D9 { need(p, 8) }
    else if op == 0x009C { need(p, 7) }
    else { GamePlan::Fail(PhaseError::UnknownOpcode(op)) }
}

/// Goes on without a reply after a read, or fails as the read did.
fn no_reply<T>(r: Result<T, DecodeError>) -> (out: Result<Vec<NetworkMessage>, PhaseError>)
    ensures
        match r {
            Ok(_) => out is Ok && messages_bytes(out->Ok_0@) == Seq::<Seq<u8>>::empty(),
            Err(e) => out == Err::<Vec<NetworkMessage>, PhaseError>(PhaseError::Decode(e)),
        },
{
    match r {
        Ok(_) => {
            let ms: Vec<NetworkMessage> = Vec::new();
            assert(messages_bytes(ms@) =~= Seq::<Seq<u8>>::empty());
            Ok(ms)
        },
        Err(e) => Err(PhaseError::Decode(e)),
    }
}

/// Goes on without a reply after a status read, or fails as it did.
fn no_reply_status<T>(r: Result<T, PhaseError>) -> (out: Result<Vec<NetworkMessage>, PhaseError>)
    ensures
        match r {
            Ok(_) => out is Ok && messages_bytes(out->Ok_0@) == Seq::<Seq<u8>>::empty(),
            Err(e) => out == Err::<Vec<NetworkMessage>, PhaseError>(e),
        },
{
    match r {
        Ok(_) => {
            let ms: Vec<NetworkMessage> = Vec::new();
            assert(messages_bytes(ms@) =~= Seq::<Seq<u8>>::empty());
            Ok(ms)
        },
        Err(e) => Err(e),
    }
}

/// Decides on one packet of the game phase: reads its payload and returns the packets to
/// send back, in order.
pub fn game_packet_handler(frame: &Frame) -> (r: Result<Vec<NetworkMessage>, PhaseError>)
    ensures
        game_plan_of(r) == game_plan(frame.opcode, frame.payload@),
{
    let mut data = InputMessage::new(frame.payload.clone());
    let d = &mut data;
    match GameServer::from_code(frame.opcode) {
        Some(GameServer::MapBlockList) => no_reply(game_map_block_list(d)),
        Some(GameServer::InventoryExpansionInfo) => no_reply(game_inventory_expansion_info(d)),
        Some(GameServer::NotifyChangeStatus) => no_reply(game_notify_change_status(d)),
        Some(GameServer::AuthOk) => no_reply(game_auth_ok(d)),
        Some(GameServer::DisplayMessage) => {
            let _ = game_display_message(d);
            let ms: Vec<NetworkMessage> = Vec::new();
            assert(messages_bytes(ms@) =~= Seq::<Seq<u8>>::empty());
            Ok(ms)
        },
        Some(GameServer::ChangeMap) => no_reply(game_change_map(d)),
        Some(GameServer::ParameterChange) => no_reply_status(game_param_change(d)),
        Some(GameServer::CoupleStatus) => no_reply_status(game_couple_status(d)),
        Some(GameServer::AtkRange) => no_reply(game_atk_range(d)),
        Some(GameServer::MailUnread) => no_reply(game_mail_unread(d)),
        Some(GameServer::QuestsStateList) => no_reply(game_quests_state_list(d)),
        Some(GameServer::SingleAchievementData) => no_reply(game_single_achievement_data(d)),
        Some(GameServer::AllAchievementsData) => no_reply(game_all_achievements_data(d)),
        Some(GameServer::WeightLimit) => {
            match game_weight_limit(d) {
                Ok(_) => {
                    let ms = vec![game_request_effects_option(0), game_request_ack_map()];
                    assert(messages_bytes(ms@) =~= seq![
                        0x021Du16.le_bytes() + 0u32.le_bytes(),
                        0x007Du16.le_bytes(),
                    ]);
                    Ok(ms)
                },
                Err(e) => Err(PhaseError::Decode(e)),
            }
        },
        Some(GameServer::SpriteChange) => no_reply(game_sprite_change(d)),
        Some(GameServer::InventoryStart) => no_reply(game_inventory_start(d)),
        Some(GameServer::InventoryType) => no_reply(game_inventory_equip_item(d)),
        Some(GameServer::InventoryEnd) => no_reply(game_inventory_end(d)),
        Some(GameServer::EquipSwitchList) => no_reply(game_equip_switch_list(d)),
        Some(GameServer::MapProperty) => no_reply(game_map_property(d)),
        Some(GameServer::UnitIdle) => no_reply(game_unit_idle(d)),
        Some(GameServer::ScreenActiveEFST) => no_reply(game_screen_active_esft(d)),
        Some(GameServer::SkillTree) => no_reply(game_skill_tree(d)),
        Some(GameServer::ShortcutsKeyList) => no_reply(game_shortcuts_key_list(d)),
        Some(GameServer::LongParameterChange) => no_reply(game_long_parameter_change(d)),
        Some(GameServer::CharacterStatus) => no_reply(game_character_status(d)),
        Some(GameServer::UpdateStatus) => no_reply_status(game_update_status(d)),
        Some(GameServer::PartyInvitationState) => no_reply(game_party_invitation_state(d)),
        Some(GameServer::EquipWindowOpen) => no_reply(game_equip_window_open(d)),
        Some(GameServer::ConfigurationChange) => no_reply(game_configuration_change(d)),
        Some(GameServer::UnitChangedDir) => no_reply(game_unit_changed_dir(d)),
        None => Err(PhaseError::UnknownOpcode(frame.opcode)),
    }
}

} // verus!
