use animated_corpse::event::{ZoneEvent, ZoneEventType};
use animated_corpse::json::JsonValue;
use animated_corpse::message::SendEventMessage;
use animated_corpse::socket::{
    reader_step, writer_step, CloseAction, CloseHandshake, InboundFrame, ReaderAction, CLOSE_TIMEOUT_MS,
};

fn envelope(tag: &str, data: JsonValue) -> JsonValue {
    JsonValue::Object(vec![
        ("type".to_string(), JsonValue::Str(tag.to_string())),
        ("world_row_i".to_string(), JsonValue::Int(1)),
        ("world_col_i".to_string(), JsonValue::Int(1)),
        ("data".to_string(), data),
    ])
}

#[test]
fn reader_forwards_decoded_events() {
    let data = JsonValue::Object(vec![("character_id".to_string(), JsonValue::Str("x".to_string()))]);
    match reader_step(InboundFrame::Json(envelope("CHARACTER_EXIT_ZONE", data))) {
        ReaderAction::Forward(e) => {
            assert_eq!(e.event_type, ZoneEventType::CharacterExit { character_id: "x".to_string() })
        },
        other => panic!("unexpected {:?}", other),
    }
}

#[test]
fn reader_stops_on_permission_close_and_end_of_data() {
    assert_eq!(reader_step(InboundFrame::Json(envelope("SERVER_PERMIT_CLOSE", JsonValue::Null))), ReaderAction::Stop);
    assert_eq!(reader_step(InboundFrame::Close), ReaderAction::Stop);
    assert_eq!(reader_step(InboundFrame::NoDataAvailable), ReaderAction::Stop);
}

#[test]
fn reader_skips_what_it_cannot_decode() {
    assert!(matches!(reader_step(InboundFrame::NotJson), ReaderAction::Skip(_)));
    assert!(matches!(reader_step(InboundFrame::Other), ReaderAction::Skip(_)));
    assert!(matches!(reader_step(InboundFrame::Json(envelope("NOPE", JsonValue::Null))), ReaderAction::Skip(_)));
}

#[test]
fn writer_encodes_and_stops_after_close_request() {
    let (frame, last) = writer_step(&ZoneEvent::from_message(SendEventMessage::RequireAnimatedCorpseMove(3, 4, 5), 6, 7));
    assert!(!last);
    assert_eq!(frame.member_u32("world_row_i"), Some(6));
    assert_eq!(frame.member("data").and_then(|d| d.member_u32("animated_corpse_id")), Some(3));
    let (frame, last) = writer_step(&ZoneEvent::client_want_close());
    assert!(last);
    assert_eq!(frame.member_str("type"), Some("CLIENT_WANT_CLOSE".to_string()));
}

#[test]
fn close_handshake_sends_one_request_then_finishes() {
    let mut handshake = CloseHandshake::new();
    assert_eq!(handshake.step(false, false, 0, CLOSE_TIMEOUT_MS), CloseAction::SendCloseRequest);
    assert_eq!(handshake.step(false, false, 100, CLOSE_TIMEOUT_MS), CloseAction::Wait);
    assert_eq!(handshake.step(true, false, 200, CLOSE_TIMEOUT_MS), CloseAction::Wait);
    assert_eq!(handshake.step(true, true, 300, CLOSE_TIMEOUT_MS), CloseAction::Finish { forced: false });
}

#[test]
fn close_handshake_forced_after_timeout() {
    let mut handshake = CloseHandshake::new();
    assert_eq!(handshake.step(false, false, 0, CLOSE_TIMEOUT_MS), CloseAction::SendCloseRequest);
    assert_eq!(handshake.step(false, true, 5000, CLOSE_TIMEOUT_MS), CloseAction::Wait);
    assert_eq!(handshake.step(false, true, 5001, CLOSE_TIMEOUT_MS), CloseAction::Finish { forced: true });
}
