use ro_client::game_packets::{
    game_atk_range, game_configuration_change, game_equip_window_open, game_inventory_end,
    game_inventory_expansion_info, game_long_parameter_change, game_mail_unread, game_map_block_list,
    game_map_property, game_notify_change_status, game_party_invitation_state, game_unit_changed_dir,
    game_weight_limit,
};
use ro_client::character_list::char_list_map_data;
use ro_client::game_packets::game_param_change;
use ro_client::enums::StatusPoint;
use ro_client::input_message::{DecodeError, InputMessage};

fn msg(b: &[u8]) -> InputMessage {
    InputMessage::new(b.to_vec())
}

#[test]
fn small_game_payloads() {
    assert_eq!(game_map_block_list(&mut msg(&[1, 0, 0, 0])), Ok(1));
    assert_eq!(game_inventory_expansion_info(&mut msg(&[100, 0])), Ok(100));
    assert_eq!(game_notify_change_status(&mut msg(&[1, 0, 0, 0, 2, 0, 0, 0])), Ok((1, 2)));
    assert_eq!(game_atk_range(&mut msg(&[3, 0])), Ok(3));
    assert_eq!(game_mail_unread(&mut msg(&[1])), Ok(true));
    assert_eq!(game_mail_unread(&mut msg(&[2])), Ok(false));
    assert_eq!(game_weight_limit(&mut msg(&[50, 0, 0, 0])), Ok(50));
    assert_eq!(game_inventory_end(&mut msg(&[0, 1])), Ok((0, 1)));
    assert_eq!(game_map_property(&mut msg(&[19, 0, 0x00, 0x02, 0, 0])), Ok((19, 0x200)));
    assert_eq!(game_long_parameter_change(&mut msg(&[1, 0, 0, 0, 0, 0, 1, 0, 0, 0])), Ok((1, 0x100000000)));
    assert_eq!(game_party_invitation_state(&mut msg(&[1])), Ok(1));
    assert_eq!(game_equip_window_open(&mut msg(&[1])), Ok(true));
    assert_eq!(game_configuration_change(&mut msg(&[2, 0, 0, 0, 1, 0, 0, 0])), Ok((2, true)));
    assert_eq!(game_unit_changed_dir(&mut msg(&[9, 0, 0, 0, 2, 0, 4])), Ok((9, 2, 4)));
    let mut short = msg(&[9, 0, 0, 0, 2, 0]);
    assert_eq!(game_unit_changed_dir(&mut short), Err(DecodeError::OutOfBounds));
    assert_eq!(short.position, 0);
}

#[test]
fn param_change_positions() {
    let mut with_value = msg(&[0x19, 0x00, 1, 0, 0, 0]);
    assert_eq!(game_param_change(&mut with_value), Ok((StatusPoint::SpMaxweight, Some(1))));
    assert_eq!(with_value.position, 6);
    let mut without = msg(&[0x14, 0x00, 1, 0, 0, 0]);
    assert_eq!(game_param_change(&mut without), Ok((StatusPoint::SpZeny, None)));
    assert_eq!(without.position, 2);
}

#[test]
fn map_data_consumes_whole_record() {
    let mut p = vec![0u8; 154];
    p[20..24].copy_from_slice(&[127, 0, 0, 1]);
    let mut m = msg(&p);
    let d = char_list_map_data(&mut m).unwrap();
    assert_eq!(d.server.octets(), (127, 0, 0, 1));
    assert_eq!(m.position, 154);
}
