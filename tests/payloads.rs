use ro_client::character_list::{
    char_list_ban_character, char_list_map_server_not_ready, char_list_notify, char_list_pin_code_state,
    char_list_window_data, parse_char_info, char_list_chars_data, PinCodeState, WindowData,
};
use ro_client::enums::StatusPoint;
use ro_client::game_packets::{
    game_all_achievements_data, game_auth_ok, game_change_map, game_character_status, game_couple_status,
    game_display_message, game_equip_switch_list, game_inventory_equip_item, game_inventory_start,
    game_param_change, game_quests_state_list, game_screen_active_esft, game_shortcuts_key_list,
    game_single_achievement_data, game_skill_tree, game_sprite_change, game_unit_idle, game_update_status,
    GameAuthOk,
};
use ro_client::input_message::{DecodeError, InputMessage};
use ro_client::login::{login_auth_ok, read_server_info};
use ro_client::session::PhaseError;

fn msg(b: Vec<u8>) -> InputMessage {
    InputMessage::new(b)
}

fn padded(s: &str, n: usize) -> Vec<u8> {
    let mut v = s.as_bytes().to_vec();
    v.resize(n, 0);
    v
}

#[test]
fn game_auth_ok_fields() {
    let mut p = 0x01020304u32.to_le_bytes().to_vec();
    p.extend([0x01, 0x23, 0x45, 0xAA, 0xBB, 0x05, 0x00]);
    let mut m = msg(p);
    assert_eq!(game_auth_ok(&mut m), Ok(GameAuthOk { client_tick: 0x01020304, x: 4, y: 0x234, dir: 5, font: 5 }));
    assert!(m.is_eof());
    assert_eq!(game_auth_ok(&mut msg(vec![0; 10])), Err(DecodeError::OutOfBounds));
}

#[test]
fn param_change_reads_value_for_weight_only() {
    let mut m = msg(vec![0x18, 0x00, 0x10, 0x27, 0x00, 0x00]);
    assert_eq!(game_param_change(&mut m), Ok((StatusPoint::SpWeight, Some(10000))));
    let mut m = msg(vec![0x13, 0x00, 0x10, 0x27, 0x00, 0x00]);
    assert_eq!(game_param_change(&mut m), Ok((StatusPoint::SpClass, None)));
    assert_eq!(m.position, 2);
    assert_eq!(game_param_change(&mut msg(vec![0x40, 0x00])), Err(PhaseError::InvalidStatus(0x40)));
    assert_eq!(game_param_change(&mut msg(vec![0x05, 0x00, 1])), Err(PhaseError::Decode(DecodeError::OutOfBounds)));
}

#[test]
fn couple_status_reads_value_and_bonus_of_a_stat() {
    let mut p = 0x000Du32.to_le_bytes().to_vec();
    p.extend(9u32.to_le_bytes());
    p.extend(3u32.to_le_bytes());
    assert_eq!(game_couple_status(&mut msg(p)), Ok((StatusPoint::SpStr, Some((9, 3)))));
    let mut p = 0x00DBu32.to_le_bytes().to_vec();
    p.extend([0; 8]);
    assert_eq!(game_couple_status(&mut msg(p)), Ok((StatusPoint::SpPow, Some((0, 0)))));
    let mut p = 0x0005u32.to_le_bytes().to_vec();
    p.extend([0; 8]);
    assert_eq!(game_couple_status(&mut msg(p)), Ok((StatusPoint::SpHp, None)));
}

#[test]
fn update_status_needs_a_stat_cost() {
    assert_eq!(game_update_status(&mut msg(vec![0x20, 0x00, 7])), Ok((StatusPoint::SpUstr, 7)));
    assert_eq!(game_update_status(&mut msg(vec![0xF7, 0x00, 2])), Ok((StatusPoint::SpUpow, 2)));
    assert_eq!(game_update_status(&mut msg(vec![0x0D, 0x00, 2])), Err(PhaseError::InvalidStatus(0x0D)));
}

#[test]
fn display_message_and_change_map() {
    assert_eq!(game_display_message(&mut msg(b"welcome\0\0".to_vec())), "welcome");
    let mut p = padded("prontera.gat", 16);
    p.extend(150u16.to_le_bytes());
    p.extend(180u16.to_le_bytes());
    let c = game_change_map(&mut msg(p)).unwrap();
    assert_eq!((c.map_name.as_str(), c.x, c.y), ("prontera.gat", 150, 180));
}

#[test]
fn quest_list_with_objectives() {
    let mut p = 2u32.to_le_bytes().to_vec();
    // first quest, one objective
    p.extend(1001u32.to_le_bytes());
    p.push(1);
    p.extend(0u32.to_le_bytes());
    p.extend(0u32.to_le_bytes());
    p.extend(1u16.to_le_bytes());
    p.extend([0u8; 42]);
    // second quest, none
    p.extend(1002u32.to_le_bytes());
    p.push(2);
    p.extend(5u32.to_le_bytes());
    p.extend(6u32.to_le_bytes());
    p.extend(0u16.to_le_bytes());
    let qs = game_quests_state_list(&mut msg(p.clone())).unwrap();
    assert_eq!(qs.len(), 2);
    assert_eq!((qs[0].quest_id, qs[0].state, qs[0].objective_count), (1001, 1, 1));
    assert_eq!((qs[1].quest_id, qs[1].time, qs[1].time2), (1002, 5, 6));
    p.pop();
    assert_eq!(game_quests_state_list(&mut msg(p)), Err(DecodeError::OutOfBounds));
}

#[test]
fn achievements() {
    let mut rec = 77u32.to_le_bytes().to_vec();
    rec.push(1);
    rec.extend([0u8; 40]);
    rec.extend(123456u32.to_le_bytes());
    rec.push(0);
    let mut single = 500u32.to_le_bytes().to_vec();
    single.extend(3u16.to_le_bytes());
    single.extend(10u32.to_le_bytes());
    single.extend(20u32.to_le_bytes());
    single.extend(&rec);
    let (sum, a) = game_single_achievement_data(&mut msg(single)).unwrap();
    assert_eq!((sum.total_score, sum.level, sum.exp, sum.exp_tnl), (500, 3, 10, 20));
    assert_eq!((a.achievement_id, a.is_complete, a.completed_epoch_time, a.is_rewarded), (77, true, 123456, false));
    let mut all = 2u32.to_le_bytes().to_vec();
    all.extend(500u32.to_le_bytes());
    all.extend(3u16.to_le_bytes());
    all.extend(10u32.to_le_bytes());
    all.extend(20u32.to_le_bytes());
    all.extend(&rec);
    all.extend(&rec);
    let (_, list) = game_all_achievements_data(&mut msg(all.clone())).unwrap();
    assert_eq!(list.len(), 2);
    all.truncate(all.len() - 1);
    assert_eq!(game_all_achievements_data(&mut msg(all)).err(), Some(DecodeError::OutOfBounds));
}

#[test]
fn sprite_inventory_and_switch_list() {
    let mut p = 9u32.to_le_bytes().to_vec();
    p.push(2);
    p.extend(3u32.to_le_bytes());
    p.extend(4u32.to_le_bytes());
    let c = game_sprite_change(&mut msg(p)).unwrap();
    assert_eq!((c.account_id, c.sprite_type, c.value, c.value2), (9, 2, 3, 4));
    assert_eq!(game_inventory_start(&mut msg(vec![0, b'b', b'a', b'g'])), Ok((0, "bag".to_string())));
    let mut item = 2u16.to_le_bytes().to_vec();
    item.extend(1201u32.to_le_bytes());
    item.push(5);
    item.extend(2u32.to_le_bytes());
    item.extend(0u32.to_le_bytes());
    item.extend([0u8; 50]);
    item.extend([7, 1, 1]);
    let mut inv = vec![0u8];
    inv.extend(&item);
    inv.extend(&item);
    let (t, items) = game_inventory_equip_item(&mut msg(inv)).unwrap();
    assert_eq!((t, items.len()), (0, 2));
    assert_eq!((items[1].index, items[1].item_id, items[1].refining_level, items[1].flag), (2, 1201, 7, 1));
    assert_eq!(game_equip_switch_list(&mut msg(vec![1, 0, 2, 0, 0, 0, 3, 0, 4, 0, 0, 0])), Ok(vec![(1, 2), (3, 4)]));
    assert_eq!(game_equip_switch_list(&mut msg(vec![1, 0, 2])), Err(DecodeError::OutOfBounds));
}

#[test]
fn skill_tree_and_hotkeys() {
    let mut sk = 28u16.to_le_bytes().to_vec();
    sk.extend(1u32.to_le_bytes());
    sk.extend(10u16.to_le_bytes());
    sk.extend(40u16.to_le_bytes());
    sk.extend(9u16.to_le_bytes());
    sk.extend(padded("AL_HEAL", 24));
    sk.push(1);
    let skills = game_skill_tree(&mut msg(sk)).unwrap();
    assert_eq!(skills.len(), 1);
    assert_eq!((skills[0].id, skills[0].level, skills[0].name.as_str(), skills[0].is_max), (28, 10, "AL_HEAL", true));
    let mut hk = vec![0u8, 1, 0];
    for i in 0..38u32 {
        hk.push((i % 2) as u8);
        hk.extend(i.to_le_bytes());
        hk.extend(1u16.to_le_bytes());
    }
    let (rotate, tab, keys) = game_shortcuts_key_list(&mut msg(hk)).unwrap();
    assert_eq!((rotate, tab, keys.len()), (0, 1, 38));
    assert_eq!((keys[37].is_skill, keys[37].id, keys[37].count), (true, 37, 1));
}

#[test]
fn character_status_and_effects() {
    let mut p = 48u16.to_le_bytes().to_vec();
    p.extend([9, 2, 8, 2, 7, 2, 6, 2, 5, 2, 4, 2]);
    p.extend([0u8; 16]);
    for v in [100u16, 50, 0, 3, 150, 0] {
        p.extend(v.to_le_bytes());
    }
    let c = game_character_status(&mut msg(p)).unwrap();
    assert_eq!((c.status_point, c.strength, c.luck, c.hit, c.flee, c.critical, c.aspd), (48, 9, 4, 100, 50, 3, 150));
    let mut e = 5u32.to_le_bytes().to_vec();
    e.extend(46u16.to_le_bytes());
    e.extend(9000u32.to_le_bytes());
    e.extend([0u8; 16]);
    let a = game_screen_active_esft(&mut msg(e)).unwrap();
    assert_eq!((a.index, a.status_type, a.remain_msec), (5, 46, 9000));
}

#[test]
fn unit_idle_record() {
    let mut p = vec![0u8; 104];
    p[0] = 1;
    p[1..5].copy_from_slice(&2000001u32.to_le_bytes());
    p[19..21].copy_from_slice(&4001u16.to_le_bytes());
    p[59..62].copy_from_slice(&[0x01, 0x23, 0x45]);
    p[65..67].copy_from_slice(&99u16.to_le_bytes());
    p[80..84].copy_from_slice(b"Poring"[..4].as_ref());
    let u = game_unit_idle(&mut msg(p)).unwrap();
    assert_eq!((u.object_type, u.aid, u.job, u.x, u.y, u.dir, u.clevel), (1, 2000001, 4001, 4, 0x234, 5, 99));
    assert_eq!(u.name, "Pori");
}

#[test]
fn char_list_records() {
    assert_eq!(
        char_list_window_data(&mut msg({
            let mut v = vec![9, 0, 0, 9, 15];
            v.extend([0u8; 20]);
            v
        })),
        Ok(WindowData { min_chars: 9, premium_chars: 0, billing_chars: 0, producible_chars: 9, max_chars: 15 })
    );
    assert_eq!(char_list_notify(&mut msg(vec![3, 0, 0, 0])), Ok(3));
    assert_eq!(
        char_list_pin_code_state(&mut msg(vec![1, 0, 0, 0, 2, 0, 0, 0, 4, 0])),
        Ok(PinCodeState { seed: 1, account_id: 2, state: 4 })
    );
    assert_eq!(char_list_map_server_not_ready(&mut msg(vec![0u8; 21])), Err(DecodeError::OutOfBounds));
    let mut c = vec![0u8; 175];
    c[0..4].copy_from_slice(&150001u32.to_le_bytes());
    c[92..94].copy_from_slice(&99u16.to_le_bytes());
    c[108..112].copy_from_slice(b"Hero");
    c[142..150].copy_from_slice(b"prontera");
    c[174] = 1;
    let chars = parse_char_info(&mut msg(c.clone())).unwrap();
    assert_eq!(chars.len(), 1);
    assert_eq!((chars[0].gid, chars[0].level, chars[0].name.as_str(), chars[0].map_name.as_str(), chars[0].sex), (150001, 99, "Hero", "prontera", 1));
    let mut cd = vec![15, 9, 0];
    cd.extend([0u8; 20]);
    cd.extend(&c);
    cd.extend(&c);
    assert_eq!(char_list_chars_data(&mut msg(cd)).unwrap().len(), 2);
    c.pop();
    assert_eq!(parse_char_info(&mut msg(c)), Err(DecodeError::OutOfBounds));
}

#[test]
fn ban_list_entries() {
    let mut p = 0u32.to_le_bytes().to_vec();
    p.extend(5u32.to_le_bytes());
    p.extend(padded("2030-01-01", 20));
    let es = char_list_ban_character(&mut msg(p.clone())).unwrap();
    assert_eq!(es.len(), 2);
    assert_eq!((es[0].character_id, es[0].text.clone()), (0, None));
    assert_eq!((es[1].character_id, es[1].text.clone()), (5, Some("2030-01-01".to_string())));
    p.pop();
    assert_eq!(char_list_ban_character(&mut msg(p)), Err(DecodeError::OutOfBounds));
}

#[test]
fn auth_ok_records() {
    let mut s = 0x0100007Fu32.to_le_bytes().to_vec();
    s.extend(6900u16.to_le_bytes());
    s.extend(padded("Main", 20));
    s.extend(12u16.to_le_bytes());
    s.extend(1u16.to_le_bytes());
    s.extend(0u16.to_le_bytes());
    s.extend([0u8; 128]);
    let si = read_server_info(&mut msg(s.clone())).unwrap();
    assert_eq!((si.ip, si.port, si.name.as_str(), si.users, si.server_type), (0x0100007F, 6900, "Main", 12, 1));
    let mut p = vec![0u8; 42];
    p[0..4].copy_from_slice(&5u32.to_le_bytes());
    p.push(1);
    p.extend(b"web\0");
    p.extend(&s);
    let a = login_auth_ok(&mut msg(p.clone())).unwrap();
    assert_eq!((a.login_id, a.gender, a.web_token.as_str(), a.servers.len()), (5, 1, "web", 1));
    let mut q = p[..43].to_vec();
    q.extend(b"web");
    assert_eq!(login_auth_ok(&mut msg(q)).err(), Some(DecodeError::Unterminated));
    p.pop();
    assert_eq!(login_auth_ok(&mut msg(p)).err(), Some(DecodeError::OutOfBounds));
}
