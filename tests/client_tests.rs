use animated_corpse::ac::{animated_corpse_from_value, AnimatedCorpse, AnimatedCorpseBase, Hare, Type};
use animated_corpse::client::{animated_corpses_from_value, check_status, raw_source_from, ClientError, ErrorResponse};
use animated_corpse::error::Error;
use animated_corpse::json::JsonValue;

fn message_body(text: &str) -> Option<JsonValue> {
    Some(JsonValue::Object(vec![("message".to_string(), JsonValue::Str(text.to_string()))]))
}

fn corpse_value(id: i64, type_: &str) -> JsonValue {
    JsonValue::Object(vec![
        ("id".to_string(), JsonValue::Int(id)),
        ("type_".to_string(), JsonValue::Str(type_.to_string())),
        ("world_row_i".to_string(), JsonValue::Int(1)),
        ("world_col_i".to_string(), JsonValue::Int(2)),
        ("zone_row_i".to_string(), JsonValue::Int(3)),
        ("zone_col_i".to_string(), JsonValue::Int(4)),
    ])
}

#[test]
fn status_classification() {
    assert_eq!(check_status(200, None), Ok(()));
    assert_eq!(check_status(204, message_body("x")), Ok(()));
    assert_eq!(check_status(404, None), Err(ClientError::NotFound { message: "Not Found".to_string() }));
    assert_eq!(check_status(400, message_body("bad")), Err(ClientError::ClientSideError { message: "bad".to_string() }));
    assert_eq!(check_status(500, message_body("boom")), Err(ClientError::ServerSideError { message: "boom".to_string() }));
    assert_eq!(check_status(302, message_body("moved")), Err(ClientError::ServerSideError { message: "moved".to_string() }));
    assert!(matches!(check_status(503, None), Err(ClientError::InternalError { .. })));
}

#[test]
fn error_messages() {
    assert_eq!(ClientError::get_message(&ClientError::NotFound { message: "m".to_string() }), "Not found: m");
    assert_eq!(
        ClientError::get_message(&ClientError::ServerSideError { message: "s".to_string() }),
        "Server side error: s"
    );
    assert_eq!(Error::new("oops".to_string()).message(), "oops");
    assert_eq!(
        Error::from_client_error(&ClientError::InternalError { message: "i".to_string() }).message(),
        "client error: Internal error: i"
    );
    assert_eq!(
        ErrorResponse::from_value(&message_body("z").unwrap()),
        Some(ErrorResponse { message: "z".to_string() })
    );
}

#[test]
fn raw_source_extraction() {
    let v = JsonValue::Object(vec![("raw_source".to_string(), JsonValue::Str("::GEO\n..".to_string()))]);
    assert_eq!(raw_source_from(&v), Ok("::GEO\n..".to_string()));
    assert!(matches!(raw_source_from(&JsonValue::Null), Err(ClientError::InternalError { .. })));
}

#[test]
fn roster_skips_unknown_kinds() {
    let roster = JsonValue::Array(vec![corpse_value(1, "HARE"), corpse_value(2, "WOLF"), JsonValue::Null, corpse_value(3, "HARE")]);
    let corpses = animated_corpses_from_value(&roster).unwrap();
    let hare = |id| {
        AnimatedCorpse::Hare(Hare::new(AnimatedCorpseBase {
            id,
            type_: Type::HARE,
            world_row_i: 1,
            world_col_i: 2,
            zone_row_i: 3,
            zone_col_i: 4,
        }))
    };
    assert_eq!(corpses, vec![hare(1), hare(3)]);
    assert!(animated_corpses_from_value(&JsonValue::Null).is_err());
    assert_eq!(animated_corpse_from_value(&corpse_value(2, "WOLF")), Err("Unknown type WOLF".to_string()));
}
