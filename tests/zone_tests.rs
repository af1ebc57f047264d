use animated_corpse::ac::{AnimatedCorpse, AnimatedCorpseBase, Hare, Type};
use animated_corpse::json::JsonValue;
use animated_corpse::message::{Message, SendEventMessage, ZoneMessage};
use animated_corpse::model::{Build, Character};
use animated_corpse::tile::ZoneTiles;
use animated_corpse::zone::Zone;

fn member(key: &str, value: JsonValue) -> (String, JsonValue) {
    (key.to_string(), value)
}

fn tile(id: &str, ch: &str, walk: Option<bool>) -> JsonValue {
    let mut entries = vec![member("id", JsonValue::Str(id.to_string())), member("char", JsonValue::Str(ch.to_string()))];
    if let Some(w) = walk {
        entries.push(member("traversable", JsonValue::Object(vec![member("WALKING", JsonValue::Bool(w))])));
    }
    JsonValue::Object(entries)
}

fn tiles() -> ZoneTiles {
    ZoneTiles::new(JsonValue::Array(vec![
        tile("GRASS", ".", Some(true)),
        tile("WALL", "#", Some(false)),
        tile("SAND", "s", None),
    ]))
    .unwrap()
}

fn hare(id: u32, row: u32, col: u32) -> AnimatedCorpse {
    AnimatedCorpse::Hare(Hare::new(AnimatedCorpseBase {
        id,
        type_: Type::HARE,
        world_row_i: 1,
        world_col_i: 2,
        zone_row_i: row,
        zone_col_i: col,
    }))
}

fn zone(raw: &str, corpses: Vec<AnimatedCorpse>, characters: Vec<Character>) -> Zone {
    Zone::new(1, 2, corpses, characters, vec![], raw, tiles(), "PLAIN".to_string()).unwrap()
}

fn character(id: &str, row: u32, col: u32) -> Character {
    Character { id: id.to_string(), zone_row_i: row, zone_col_i: col }
}

#[test]
fn tile_id_inside_and_outside_grid() {
    let z = zone("..#\n.x", vec![], vec![]);
    assert_eq!(z.tile_id(0, 2), "WALL");
    assert_eq!(z.tile_id(1, 1), "UNKNOWN");
    assert_eq!(z.tile_id(1, 2), "NOTHING");
    assert_eq!(z.tile_id(5, 0), "NOTHING");
    assert_eq!(z.width, 3);
    assert_eq!(z.height, 2);
}

#[test]
fn successors_of_interior_position_in_fixed_order() {
    let z = zone("...\n...\n...", vec![], vec![]);
    let expected = vec![
        ((0, 0), 1),
        ((0, 1), 1),
        ((0, 2), 1),
        ((1, 0), 1),
        ((1, 2), 1),
        ((2, 2), 1),
        ((2, 0), 1),
        ((2, 1), 1),
    ];
    assert_eq!(z.get_successors(1, 1), expected);
}

#[test]
fn successors_skip_negative_and_blocked_tiles() {
    let z = zone(".#.\n.s.\n...", vec![], vec![]);
    assert_eq!(z.get_successors(0, 0), vec![((1, 0), 1)]);
    assert_eq!(z.get_successors(1, 1), vec![((0, 0), 1), ((0, 2), 1), ((1, 0), 1), ((1, 2), 1), ((2, 2), 1), ((2, 0), 1), ((2, 1), 1)]);
    assert_eq!(z.get_successors(2, 2), vec![((1, 2), 1), ((2, 1), 1)]);
}

#[test]
fn empty_zone_source_is_rejected() {
    let r = Zone::new(0, 0, vec![], vec![], vec![], "  \n", tiles(), "PLAIN".to_string());
    assert!(r.is_err());
}

#[test]
fn update_corpse_position_moves_only_that_corpse() {
    let mut z = zone("...\n...\n...", vec![hare(1, 0, 0), hare(2, 1, 1), hare(3, 2, 2)], vec![]);
    z.on_message(ZoneMessage::UpdateAnimatedCorpsePosition(2, 0, 2));
    assert_eq!(z.animated_corpses[0], hare(1, 0, 0));
    assert_eq!(z.animated_corpses[1], hare(2, 0, 2));
    assert_eq!(z.animated_corpses[2], hare(3, 2, 2));
    z.on_message(ZoneMessage::UpdateAnimatedCorpsePosition(9, 2, 2));
    assert_eq!(z.animated_corpses[1], hare(2, 0, 2));
}

#[test]
fn character_mutations() {
    let mut z = zone("...", vec![], vec![character("a", 0, 0), character("b", 0, 1)]);
    z.on_message(ZoneMessage::UpdateCharacterPosition("b".to_string(), 0, 2));
    assert_eq!(z.characters, vec![character("a", 0, 0), character("b", 0, 2)]);
    z.on_message(ZoneMessage::AddCharacter("c".to_string(), 0, 1));
    assert_eq!(z.characters.len(), 3);
    z.on_message(ZoneMessage::RemoveCharacter("a".to_string()));
    assert_eq!(z.characters, vec![character("b", 0, 2), character("c", 0, 1)]);
    z.on_message(ZoneMessage::RemoveCharacter("zz".to_string()));
    assert_eq!(z.characters.len(), 2);
}

#[test]
fn build_and_corpse_additions() {
    let mut z = zone("...", vec![], vec![]);
    let build = Build { id: 4, build_id: "WALL".to_string(), row_i: 0, col_i: 1, traversable: vec![("WALKING".to_string(), false)] };
    z.on_message(ZoneMessage::AddBuild(build.clone()));
    assert_eq!(z.builds, vec![build]);
    z.on_message(ZoneMessage::AddAnimatedCorpse(7));
    assert!(z.animated_corpses.is_empty());
    z.add_animated_corpse(hare(7, 0, 0));
    assert_eq!(z.animated_corpses, vec![hare(7, 0, 0)]);
}

#[test]
fn move_fires_every_tick() {
    // A single walkable neighbor makes the draw certain.
    let z = zone(".#\n##", vec![hare(1, 1, 1)], vec![]);
    let expected = vec![Message::Event(SendEventMessage::RequireAnimatedCorpseMove(1, 0, 0), (1, 2))];
    assert_eq!(z.animate(0), expected);
    assert_eq!(z.animate(1), expected);
    assert_eq!(z.animate(7), expected);
}

#[test]
fn move_blocked_near_character_on_tick() {
    let z = zone(".#\n##", vec![hare(1, 1, 1)], vec![character("a", 2, 2)]);
    assert_eq!(z.animate(3), vec![]);
}

#[test]
fn no_successor_no_move() {
    let z = zone("##\n##", vec![hare(1, 0, 0)], vec![]);
    assert_eq!(z.animate(0), vec![]);
}
