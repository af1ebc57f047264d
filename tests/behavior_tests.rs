use animated_corpse::ac::{AnimatedCorpse, AnimatedCorpseBase, Hare, Type};
use animated_corpse::behavior::{get_behaviors_for, Behavior, Fear, Move};
use animated_corpse::event::{ZoneEvent, ZoneEventType};
use animated_corpse::json::JsonValue;
use animated_corpse::message::{Message, SendEventMessage, ZoneMessage};
use animated_corpse::model::Character;
use animated_corpse::tile::ZoneTiles;
use animated_corpse::zone::Zone;

fn tiles() -> ZoneTiles {
    let grass = JsonValue::Object(vec![
        ("id".to_string(), JsonValue::Str("GRASS".to_string())),
        ("char".to_string(), JsonValue::Str(".".to_string())),
        (
            "traversable".to_string(),
            JsonValue::Object(vec![("WALKING".to_string(), JsonValue::Bool(true))]),
        ),
    ]);
    ZoneTiles::new(JsonValue::Array(vec![grass])).unwrap()
}

fn hare(id: u32, row: u32, col: u32) -> AnimatedCorpse {
    AnimatedCorpse::Hare(Hare::new(AnimatedCorpseBase {
        id,
        type_: Type::HARE,
        world_row_i: 3,
        world_col_i: 4,
        zone_row_i: row,
        zone_col_i: col,
    }))
}

fn zone(raw: &str, corpses: Vec<AnimatedCorpse>, characters: Vec<Character>) -> Zone {
    Zone::new(3, 4, corpses, characters, vec![], raw, tiles(), "PLAIN".to_string()).unwrap()
}

fn open_grid(rows: usize, cols: usize) -> String {
    vec![".".repeat(cols); rows].join("\n")
}

fn player_move(to_row_i: u32, to_col_i: u32) -> ZoneEvent {
    ZoneEvent {
        event_type: ZoneEventType::PlayerMove { to_row_i, to_col_i, character_id: "p".to_string() },
        event_type_name: "PLAYER_MOVE".to_string(),
        world_row_i: 3,
        world_col_i: 4,
    }
}

#[test]
fn fear_flees_east_from_player_coming_west() {
    let corpse = hare(8, 5, 5);
    let z = zone(&open_grid(11, 11), vec![corpse], vec![]);
    let messages = Fear::from_animated_corpse(&corpse).on_event(&corpse, &player_move(5, 4), &z);
    assert_eq!(messages, vec![Message::Event(SendEventMessage::RequireAnimatedCorpseMove(8, 5, 6), (3, 4))]);
}

#[test]
fn fear_ignores_far_player_and_other_events() {
    let corpse = hare(8, 5, 5);
    let z = zone(&open_grid(11, 11), vec![corpse], vec![]);
    let fear = Fear {};
    assert_eq!(fear.on_event(&corpse, &player_move(5, 9), &z), vec![]);
    assert_eq!(fear.on_event(&corpse, &player_move(5, 5), &z), vec![]);
    let exit = ZoneEvent {
        event_type: ZoneEventType::CharacterExit { character_id: "p".to_string() },
        event_type_name: "CHARACTER_EXIT_ZONE".to_string(),
        world_row_i: 3,
        world_col_i: 4,
    };
    assert_eq!(fear.on_event(&corpse, &exit, &z), vec![]);
}

#[test]
fn fear_escape_floored_at_zero_and_fallback() {
    // Player south of a corpse in the corner: the escape tile (-1, 0) floors to
    // (0, 0), which is no successor of (0, 0); with one walkable tile in the
    // grid there is no successor either, so the corpse stays.
    let corpse = hare(2, 0, 0);
    let z = zone(".", vec![corpse], vec![]);
    let messages = Fear {}.on_event(&corpse, &player_move(1, 0), &z);
    assert_eq!(messages, vec![Message::Event(SendEventMessage::RequireAnimatedCorpseMove(2, 0, 0), (3, 4))]);
    // With no successor at all the corpse is asked to stay where it is.
    let lone = hare(2, 0, 0);
    let z = zone(".", vec![lone], vec![]);
    let messages = Fear {}.on_event(&lone, &player_move(0, 1), &z);
    assert_eq!(messages, vec![Message::Event(SendEventMessage::RequireAnimatedCorpseMove(2, 0, 0), (3, 4))]);
}

#[test]
fn fear_with_drawn_successor() {
    let corpse = hare(2, 1, 1);
    // Escape tile (1, 2) lies outside the grid: the drawn successor is used.
    let z = zone("..\n..", vec![corpse], vec![]);
    let messages = Fear {}.on_event_with(&corpse, &player_move(1, 0), &z, Some((0, 0)));
    assert_eq!(messages, vec![Message::Event(SendEventMessage::RequireAnimatedCorpseMove(2, 0, 0), (3, 4))]);
}

#[test]
fn move_blocked_when_every_successor_is_near_a_character() {
    let corpse = hare(1, 5, 5);
    let z = zone(&open_grid(11, 11), vec![corpse], vec![character("a", 5, 5)]);
    assert_eq!(Move { move_in_pack: true }.on_animate(&corpse, &z), vec![]);
}

#[test]
fn move_with_drawn_successor_far_from_characters() {
    let corpse = hare(1, 5, 5);
    let z = zone(&open_grid(11, 11), vec![corpse], vec![character("a", 9, 9)]);
    let m = Move { move_in_pack: true };
    assert_eq!(
        m.on_animate_with(&corpse, &z, Some((4, 4))),
        vec![Message::Event(SendEventMessage::RequireAnimatedCorpseMove(1, 4, 4), (3, 4))]
    );
    assert_eq!(m.on_animate_with(&corpse, &z, Some((7, 7))), vec![]);
    assert_eq!(m.on_animate_with(&corpse, &z, None), vec![]);
}

#[test]
fn behavior_table_and_cadences() {
    let corpse = hare(1, 0, 0);
    let behaviors = get_behaviors_for(&corpse);
    assert_eq!(behaviors, vec![Behavior::Move(Move { move_in_pack: true }), Behavior::Fear(Fear {})]);
    assert_eq!(behaviors[0].animate_each(), Some(1));
    assert_eq!(behaviors[1].animate_each(), None);
}

#[test]
fn zone_on_event_runs_sync_then_behaviors() {
    let mut z = zone(&open_grid(11, 11), vec![hare(1, 5, 5), hare(2, 0, 0)], vec![]);
    let event = ZoneEvent {
        event_type: ZoneEventType::AnimatedCorpseMove { to_row_i: 6, to_col_i: 6, animated_corpse_id: 1 },
        event_type_name: "ANIMATED_CORPSE_MOVE".to_string(),
        world_row_i: 3,
        world_col_i: 4,
    };
    let messages = z.on_event(&event);
    assert_eq!(messages, vec![Message::Zone(ZoneMessage::UpdateAnimatedCorpsePosition(1, 6, 6), (3, 4))]);
    assert_eq!(z.animated_corpses[0], hare(1, 6, 6));
    assert_eq!(z.animated_corpses[1], hare(2, 0, 0));
}

#[test]
fn zone_on_event_player_move_scares_each_corpse_in_order() {
    let mut z = zone(&open_grid(11, 11), vec![hare(1, 5, 5), hare(2, 5, 3)], vec![]);
    let messages = z.on_event(&player_move(5, 4));
    assert_eq!(
        messages,
        vec![
            Message::Event(SendEventMessage::RequireAnimatedCorpseMove(1, 5, 6), (3, 4)),
            Message::Event(SendEventMessage::RequireAnimatedCorpseMove(2, 5, 2), (3, 4)),
        ]
    );
}

#[test]
fn corpse_sync_is_bound_for_its_zone() {
    let mut z = zone(&open_grid(3, 3), vec![hare(1, 0, 0)], vec![]);
    let event = ZoneEvent {
        event_type: ZoneEventType::AnimatedCorpseMove { to_row_i: 2, to_col_i: 1, animated_corpse_id: 1 },
        event_type_name: "ANIMATED_CORPSE_MOVE".to_string(),
        world_row_i: 9,
        world_col_i: 9,
    };
    assert_eq!(z.on_event(&event), vec![Message::Zone(ZoneMessage::UpdateAnimatedCorpsePosition(1, 2, 1), (3, 4))]);
}

fn character(id: &str, row: u32, col: u32) -> Character {
    Character { id: id.to_string(), zone_row_i: row, zone_col_i: col }
}
