use animated_corpse::event::{ZoneEvent, ZoneEventType};
use animated_corpse::json::JsonValue;
use animated_corpse::message::SendEventMessage;
use animated_corpse::model::Build;

fn m(key: &str, value: JsonValue) -> (String, JsonValue) {
    (key.to_string(), value)
}

fn s(text: &str) -> JsonValue {
    JsonValue::Str(text.to_string())
}

fn envelope(tag: &str, data: JsonValue) -> JsonValue {
    JsonValue::Object(vec![
        m("type", s(tag)),
        m("world_row_i", JsonValue::Int(2)),
        m("world_col_i", JsonValue::Int(3)),
        m("data", data),
    ])
}

#[test]
fn decode_player_move() {
    let v = envelope(
        "PLAYER_MOVE",
        JsonValue::Object(vec![m("to_row_i", JsonValue::Int(4)), m("to_col_i", JsonValue::Int(5)), m("character_id", s("abc"))]),
    );
    let e = ZoneEvent::from_value(v).unwrap();
    assert_eq!(e.event_type_name, "PLAYER_MOVE");
    assert_eq!((e.world_row_i, e.world_col_i), (2, 3));
    assert_eq!(e.event_type, ZoneEventType::PlayerMove { to_row_i: 4, to_col_i: 5, character_id: "abc".to_string() });
}

#[test]
fn decode_control_and_character_events() {
    assert_eq!(ZoneEvent::from_value(envelope("CLIENT_WANT_CLOSE", JsonValue::Null)).unwrap().event_type, ZoneEventType::ClientWantClose);
    assert_eq!(
        ZoneEvent::from_value(envelope("SERVER_PERMIT_CLOSE", JsonValue::Object(vec![]))).unwrap().event_type,
        ZoneEventType::ServerPermitClose
    );
    let enter = envelope(
        "CHARACTER_ENTER_ZONE",
        JsonValue::Object(vec![m("zone_row_i", JsonValue::Int(1)), m("zone_col_i", JsonValue::Int(0)), m("character_id", s("c"))]),
    );
    assert_eq!(
        ZoneEvent::from_value(enter).unwrap().event_type,
        ZoneEventType::CharacterEnter { zone_row_i: 1, zone_col_i: 0, character_id: "c".to_string() }
    );
    let exit = envelope("CHARACTER_EXIT_ZONE", JsonValue::Object(vec![m("character_id", s("c"))]));
    assert_eq!(
        ZoneEvent::from_value(exit).unwrap().event_type,
        ZoneEventType::CharacterExit { character_id: "c".to_string() }
    );
}

#[test]
fn decode_new_build_keeps_walking_mode() {
    let build = JsonValue::Object(vec![
        m("id", JsonValue::Int(9)),
        m("build_id", s("WALL")),
        m("row_i", JsonValue::Int(1)),
        m("col_i", JsonValue::Int(2)),
        m("traversable", JsonValue::Object(vec![m("FLYING", JsonValue::Bool(true)), m("WALKING", JsonValue::Bool(false))])),
    ]);
    let e = ZoneEvent::from_value(envelope("NEW_BUILD", JsonValue::Object(vec![m("build", build)]))).unwrap();
    assert_eq!(
        e.event_type,
        ZoneEventType::NewBuild {
            build: Build {
                id: 9,
                build_id: "WALL".to_string(),
                row_i: 1,
                col_i: 2,
                traversable: vec![("WALKING".to_string(), false)],
            }
        }
    );
}

#[test]
fn decode_failures() {
    assert!(ZoneEvent::from_value(envelope("TELEPORT", JsonValue::Null)).is_err());
    assert_eq!(
        ZoneEvent::from_value(envelope("TELEPORT", JsonValue::Null)).unwrap_err(),
        "Unknown event TELEPORT"
    );
    let missing = envelope("PLAYER_MOVE", JsonValue::Object(vec![m("to_row_i", JsonValue::Int(4))]));
    assert!(ZoneEvent::from_value(missing).is_err());
    let negative = envelope(
        "ANIMATED_CORPSE_MOVE",
        JsonValue::Object(vec![m("to_row_i", JsonValue::Int(-1)), m("to_col_i", JsonValue::Int(5)), m("animated_corpse_id", JsonValue::Int(1))]),
    );
    assert!(ZoneEvent::from_value(negative).is_err());
    assert!(ZoneEvent::from_value(JsonValue::Array(vec![])).is_err());
    let no_data = JsonValue::Object(vec![m("type", s("CLIENT_WANT_CLOSE")), m("world_row_i", JsonValue::Int(0)), m("world_col_i", JsonValue::Int(0))]);
    assert!(ZoneEvent::from_value(no_data).is_err());
}

#[test]
fn animated_corpse_move_round_trip() {
    let e = ZoneEvent::from_message(SendEventMessage::RequireAnimatedCorpseMove(17, 8, 9), 2, 3);
    let v = e.to_value();
    assert_eq!(
        v,
        envelope(
            "ANIMATED_CORPSE_MOVE",
            JsonValue::Object(vec![
                m("to_row_i", JsonValue::Int(8)),
                m("to_col_i", JsonValue::Int(9)),
                m("animated_corpse_id", JsonValue::Int(17)),
            ])
        )
    );
    let back = ZoneEvent::from_value(v).unwrap();
    assert_eq!(back, e);
    assert_eq!(back.event_type, ZoneEventType::AnimatedCorpseMove { to_row_i: 8, to_col_i: 9, animated_corpse_id: 17 });
}

#[test]
fn client_want_close_encodes_null_data() {
    let e = ZoneEvent::client_want_close();
    assert_eq!(
        e.to_value(),
        JsonValue::Object(vec![
            m("type", s("CLIENT_WANT_CLOSE")),
            m("world_row_i", JsonValue::Int(0)),
            m("world_col_i", JsonValue::Int(0)),
            m("data", JsonValue::Null),
        ])
    );
}

#[test]
fn member_lookup_takes_first_match() {
    let v = JsonValue::Object(vec![m("a", JsonValue::Int(1)), m("a", JsonValue::Int(2))]);
    assert_eq!(v.member("a"), Some(&JsonValue::Int(1)));
    assert_eq!(v.member_u32("a"), Some(1));
    assert_eq!(v.member("b"), None);
    assert_eq!(JsonValue::Int(u32::MAX as i64 + 1).member_u32("a"), None);
    let big = JsonValue::Object(vec![m("a", JsonValue::Int(u32::MAX as i64 + 1))]);
    assert_eq!(big.member_u32("a"), None);
}
