use duck_client::cracker::listen_for_move_cracker_bevy_event;
use duck_client::cracker::MoveCrackersBevyEvent;
use duck_client::cracker::CRACKER_TEXT_OFFSET;
use duck_client::player::quack_btn_handler;
use duck_client::player::spacebar_quack_system;
use duck_client::player::you_joined_ws_msg_handler;
use duck_client::text::u64_to_dec_string;

fn good_payload() -> serde_json::Value {
    serde_json::from_str(
        r#"{
            "player_uuid": "abc-123",
            "player_friendly_name": "Gerald",
            "color": "green",
            "x_position": 40,
            "y_position": -25,
            "cracker_x": 120,
            "cracker_y": 80,
            "cracker_points": 7,
            "player_points": 3,
            "all_other_players": [
                {"player_uuid": "u1", "player_friendly_name": "A", "color": "red",
                 "x_position": 1, "y_position": 2},
                {"player_uuid": "u2", "player_friendly_name": "B", "color": "blue",
                 "x_position": 3, "y_position": 4},
                {"player_uuid": "u3", "player_friendly_name": "C", "color": "teal",
                 "x_position": 5, "y_position": 6}
            ]
        }"#,
    )
    .unwrap()
}

#[test]
fn well_formed_you_joined_payload_translates_exactly() {
    let o = you_joined_ws_msg_handler(&good_payload());
    assert!(!o.parse_failed);
    assert_eq!(o.spawn.x_position, 40);
    assert_eq!(o.spawn.y_position, -25);
    assert_eq!(o.spawn.player_friendly_name, "Gerald");
    assert_eq!(o.spawn.color, "green");
    assert_eq!(o.spawn.max_speed, 500);
    assert_eq!(o.cracker_event.x_position, 120);
    assert_eq!(o.cracker_event.y_position, 80);
    assert_eq!(o.cracker_event.points, 7);
    assert!(!o.cracker_event.you_got_crackers);
}

#[test]
fn roster_of_three_fans_out_as_three_events() {
    let o = you_joined_ws_msg_handler(&good_payload());
    assert_eq!(o.other_player_events.len(), 3);
    let uuids: Vec<&str> =
        o.other_player_events.iter().map(|e| e.data.player_uuid.as_str()).collect();
    assert_eq!(uuids, vec!["u1", "u2", "u3"]);
    assert_eq!(o.other_player_events[1].data.player_friendly_name, "B");
    assert_eq!(o.other_player_events[1].data.color, "blue");
    assert_eq!(o.other_player_events[1].data.x_position, 3);
    assert_eq!(o.other_player_events[1].data.y_position, 4);
}

#[test]
fn empty_roster_fans_out_nothing() {
    let mut v = good_payload();
    v["all_other_players"] = serde_json::from_str("[]").unwrap();
    let o = you_joined_ws_msg_handler(&v);
    assert!(!o.parse_failed);
    assert_eq!(o.other_player_events.len(), 0);
}

#[test]
fn malformed_payload_yields_error_sentinel() {
    let v: serde_json::Value = serde_json::from_str(r#"{"something": "else"}"#).unwrap();
    let o = you_joined_ws_msg_handler(&v);
    assert!(o.parse_failed);
    assert_eq!(o.spawn.x_position, 0);
    assert_eq!(o.spawn.y_position, 0);
    assert_eq!(o.spawn.player_friendly_name, "error");
    assert_eq!(o.spawn.color, "error");
    assert_eq!(o.cracker_event.x_position, 0);
    assert_eq!(o.cracker_event.y_position, 0);
    assert_eq!(o.cracker_event.points, 0);
    assert_eq!(o.other_player_events.len(), 0);
}

#[test]
fn wrongly_typed_field_yields_error_sentinel() {
    let mut v = good_payload();
    v["x_position"] = serde_json::from_str("\"forty\"").unwrap();
    let o = you_joined_ws_msg_handler(&v);
    assert!(o.parse_failed);
    assert_eq!(o.spawn.player_friendly_name, "error");
}

#[test]
fn fractional_position_yields_error_sentinel() {
    let mut v = good_payload();
    v["y_position"] = serde_json::from_str("1.5").unwrap();
    let o = you_joined_ws_msg_handler(&v);
    assert!(o.parse_failed);
}

#[test]
fn broken_roster_entry_fails_the_whole_decode() {
    let mut v = good_payload();
    v["all_other_players"][2] = serde_json::from_str(r#"{"player_uuid": "u3"}"#).unwrap();
    let o = you_joined_ws_msg_handler(&v);
    assert!(o.parse_failed);
    assert_eq!(o.other_player_events.len(), 0);
}

#[test]
fn cracker_move_updates_object_label_and_text() {
    let e = MoveCrackersBevyEvent { x_position: 120, y_position: 80, points: 7, you_got_crackers: false };
    let u = listen_for_move_cracker_bevy_event(&e, true);
    assert_eq!(u.object_x, 120);
    assert_eq!(u.object_y, 80);
    assert_eq!(u.label_x, 120);
    assert_eq!(u.label_y, 80 + CRACKER_TEXT_OFFSET);
    assert_eq!(u.label_text, "7");
    assert!(u.play_move_sound);
    assert!(!u.log_audio_not_ready);
}

#[test]
fn cracker_move_without_loaded_audio_skips_and_logs() {
    let e = MoveCrackersBevyEvent { x_position: -3, y_position: -4, points: 12, you_got_crackers: false };
    let u = listen_for_move_cracker_bevy_event(&e, false);
    assert_eq!(u.label_text, "12");
    assert!(!u.play_move_sound);
    assert!(u.log_audio_not_ready);
}

#[test]
fn decimal_rendering_matches_standard_formatting() {
    assert_eq!(u64_to_dec_string(0), "0");
    assert_eq!(u64_to_dec_string(7), "7");
    assert_eq!(u64_to_dec_string(10), "10");
    assert_eq!(u64_to_dec_string(1_234_567_890), "1234567890");
    assert_eq!(u64_to_dec_string(u64::MAX), format!("{}", u64::MAX));
}

#[test]
fn quack_button_always_sends_but_plays_only_when_ready() {
    let o = quack_btn_handler(true, true);
    assert!(o.play_sound && o.send_quack_request && !o.log_audio_not_ready);
    let o = quack_btn_handler(true, false);
    assert!(!o.play_sound && o.send_quack_request && o.log_audio_not_ready);
    let o = quack_btn_handler(false, true);
    assert!(!o.play_sound && !o.send_quack_request && !o.log_audio_not_ready);
}

#[test]
fn spacebar_quack_always_sends_but_plays_only_when_ready() {
    let o = spacebar_quack_system(true, true);
    assert!(o.play_sound && o.send_quack_request && !o.log_audio_not_ready);
    // a missing asset skips only the dependent sound; the request still goes out
    let o = spacebar_quack_system(true, false);
    assert!(!o.play_sound && o.send_quack_request && o.log_audio_not_ready);
    let o = spacebar_quack_system(false, false);
    assert!(!o.play_sound && !o.send_quack_request && !o.log_audio_not_ready);
}
