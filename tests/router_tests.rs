use animated_corpse::ac::{AnimatedCorpse, AnimatedCorpseBase, Hare, Type};
use animated_corpse::event::{ZoneEvent, ZoneEventType};
use animated_corpse::json::JsonValue;
use animated_corpse::message::{Message, SendEventMessage, ZoneMessage};
use animated_corpse::model::Character;
use animated_corpse::router::{route_event, route_message, MessageRoute, Scheduler, TICK_EACH_MS};
use animated_corpse::tile::ZoneTiles;
use animated_corpse::zone::Zone;

fn tiles() -> ZoneTiles {
    let grass = JsonValue::Object(vec![
        ("id".to_string(), JsonValue::Str("GRASS".to_string())),
        ("char".to_string(), JsonValue::Str(".".to_string())),
        ("traversable".to_string(), JsonValue::Object(vec![("WALKING".to_string(), JsonValue::Bool(true))])),
    ]);
    ZoneTiles::new(JsonValue::Array(vec![grass])).unwrap()
}

fn hare(id: u32, world: (u32, u32), row: u32, col: u32) -> AnimatedCorpse {
    AnimatedCorpse::Hare(Hare::new(AnimatedCorpseBase {
        id,
        type_: Type::HARE,
        world_row_i: world.0,
        world_col_i: world.1,
        zone_row_i: row,
        zone_col_i: col,
    }))
}

fn registry() -> Vec<Zone> {
    let grid = vec![".".repeat(9); 9].join("\n");
    vec![
        Zone::new(0, 0, vec![hare(1, (0, 0), 4, 4)], vec![], vec![], &grid, tiles(), "PLAIN".to_string()).unwrap(),
        Zone::new(0, 1, vec![hare(2, (0, 1), 4, 4)], vec![], vec![], &grid, tiles(), "PLAIN".to_string()).unwrap(),
    ]
}

fn event(event_type: ZoneEventType, name: &str, world: (u32, u32)) -> ZoneEvent {
    ZoneEvent { event_type, event_type_name: name.to_string(), world_row_i: world.0, world_col_i: world.1 }
}

#[test]
fn control_events_never_reach_zones() {
    let mut zones = registry();
    assert!(route_event(&mut zones, event(ZoneEventType::ClientWantClose, "CLIENT_WANT_CLOSE", (0, 0))).is_empty());
    assert!(route_event(&mut zones, event(ZoneEventType::ServerPermitClose, "SERVER_PERMIT_CLOSE", (0, 1))).is_empty());
}

#[test]
fn player_move_is_mirrored_then_dispatched_to_its_zone() {
    let mut zones = registry();
    let e = event(
        ZoneEventType::PlayerMove { to_row_i: 4, to_col_i: 3, character_id: "p".to_string() },
        "PLAYER_MOVE",
        (0, 1),
    );
    let messages = route_event(&mut zones, e);
    assert_eq!(
        messages,
        vec![
            Message::Zone(ZoneMessage::UpdateCharacterPosition("p".to_string(), 4, 3), (0, 1)),
            Message::Event(SendEventMessage::RequireAnimatedCorpseMove(2, 4, 5), (0, 1)),
        ]
    );
}

#[test]
fn corpse_move_updates_its_zone_only() {
    let mut zones = registry();
    let e = event(
        ZoneEventType::AnimatedCorpseMove { to_row_i: 1, to_col_i: 1, animated_corpse_id: 1 },
        "ANIMATED_CORPSE_MOVE",
        (0, 0),
    );
    let messages = route_event(&mut zones, e);
    assert_eq!(messages, vec![Message::Zone(ZoneMessage::UpdateAnimatedCorpsePosition(1, 1, 1), (0, 0))]);
    assert_eq!(zones[0].animated_corpses[0], hare(1, (0, 0), 1, 1));
    assert_eq!(zones[1].animated_corpses[0], hare(2, (0, 1), 4, 4));
}

#[test]
fn character_exit_is_mirrored() {
    let mut zones = registry();
    let e = event(ZoneEventType::CharacterExit { character_id: "q".to_string() }, "CHARACTER_EXIT_ZONE", (5, 5));
    assert_eq!(
        route_event(&mut zones, e),
        vec![Message::Zone(ZoneMessage::RemoveCharacter("q".to_string()), (5, 5))]
    );
}

#[test]
fn message_routes() {
    let mut zones = registry();
    let sent = route_message(&mut zones, Message::Event(SendEventMessage::RequireAnimatedCorpseMove(2, 3, 3), (0, 1)));
    assert_eq!(
        sent,
        MessageRoute::Send(event(
            ZoneEventType::AnimatedCorpseMove { to_row_i: 3, to_col_i: 3, animated_corpse_id: 2 },
            "ANIMATED_CORPSE_MOVE",
            (0, 1)
        ))
    );
    let applied = route_message(&mut zones, Message::Zone(ZoneMessage::AddCharacter("c".to_string(), 1, 1), (0, 1)));
    assert_eq!(applied, MessageRoute::Applied(1));
    assert_eq!(zones[1].characters, vec![Character { id: "c".to_string(), zone_row_i: 1, zone_col_i: 1 }]);
    assert!(zones[0].characters.is_empty());
    let dropped = route_message(&mut zones, Message::Zone(ZoneMessage::RemoveCharacter("c".to_string()), (7, 7)));
    assert_eq!(dropped, MessageRoute::Dropped);
    let fetch = route_message(&mut zones, Message::Zone(ZoneMessage::AddAnimatedCorpse(5), (0, 0)));
    assert_eq!(fetch, MessageRoute::FetchAnimatedCorpse(0, 5));
}

#[test]
fn scheduler_sleep_is_clamped_and_ticks_advance() {
    let mut scheduler = Scheduler::new(TICK_EACH_MS);
    assert_eq!(scheduler.sleep_for(200), 800);
    assert_eq!(scheduler.sleep_for(1000), 0);
    assert_eq!(scheduler.sleep_for(5000), 0);
    let zones: Vec<Zone> = vec![];
    assert!(scheduler.tick(&zones).is_empty());
    assert_eq!(scheduler.tick_count, 1);
    scheduler.tick(&zones);
    assert_eq!(scheduler.tick_count, 2);
    scheduler.tick_count = u64::MAX;
    scheduler.tick(&zones);
    assert_eq!(scheduler.tick_count, 0);
}

#[test]
fn scheduler_tick_animates_every_zone_in_order() {
    let grid = "#.\n##";
    let wall = JsonValue::Object(vec![
        ("id".to_string(), JsonValue::Str("WALL".to_string())),
        ("char".to_string(), JsonValue::Str("#".to_string())),
    ]);
    let grass = JsonValue::Object(vec![
        ("id".to_string(), JsonValue::Str("GRASS".to_string())),
        ("char".to_string(), JsonValue::Str(".".to_string())),
        ("traversable".to_string(), JsonValue::Object(vec![("WALKING".to_string(), JsonValue::Bool(true))])),
    ]);
    let t = || ZoneTiles::new(JsonValue::Array(vec![wall.clone_value(), grass.clone_value()])).unwrap();
    let zones = vec![
        Zone::new(0, 0, vec![hare(1, (0, 0), 1, 1)], vec![], vec![], grid, t(), "PLAIN".to_string()).unwrap(),
        Zone::new(0, 1, vec![hare(2, (0, 1), 1, 0)], vec![], vec![], grid, t(), "PLAIN".to_string()).unwrap(),
    ];
    let mut scheduler = Scheduler::new(TICK_EACH_MS);
    assert_eq!(
        scheduler.tick(&zones),
        vec![
            Message::Event(SendEventMessage::RequireAnimatedCorpseMove(1, 0, 1), (0, 0)),
            Message::Event(SendEventMessage::RequireAnimatedCorpseMove(2, 0, 1), (0, 1)),
        ]
    );
}

trait CloneValue {
    fn clone_value(&self) -> JsonValue;
}

impl CloneValue for JsonValue {
    fn clone_value(&self) -> JsonValue {
        match self {
            JsonValue::Null => JsonValue::Null,
            JsonValue::Bool(b) => JsonValue::Bool(*b),
            JsonValue::Int(n) => JsonValue::Int(*n),
            JsonValue::OtherNumber => JsonValue::OtherNumber,
            JsonValue::Str(s) => JsonValue::Str(s.clone()),
            JsonValue::Array(a) => JsonValue::Array(a.iter().map(|x| x.clone_value()).collect()),
            JsonValue::Object(o) => JsonValue::Object(o.iter().map(|(k, v)| (k.clone(), v.clone_value())).collect()),
        }
    }
}
