use animated_corpse::json::JsonValue;
use animated_corpse::tile::{WorldTiles, ZoneTiles};
use animated_corpse::world::{self, World};
use animated_corpse::zone;

#[test]
fn world_legend_reads_codes_and_default() {
    let tiles = WorldTiles::new("~ SEA\n^ MOUNTAIN*\n  . PLAIN  ").unwrap();
    assert_eq!(tiles.tile_id('~' as u16).unwrap(), "SEA");
    assert_eq!(tiles.tile_id('^' as u16).unwrap(), "MOUNTAIN");
    assert_eq!(tiles.tile_id('.' as u16).unwrap(), "PLAIN");
    assert!(tiles.tile_id('x' as u16).is_err());
    assert_eq!(tiles.default, Some("MOUNTAIN".to_string()));
}

#[test]
fn world_legend_errors() {
    assert!(WorldTiles::new("~ SEA\n\n^ MOUNTAIN").is_err());
    assert!(WorldTiles::new("~").is_err());
    assert!(WorldTiles::new("~ SEA**").is_ok());
}

#[test]
fn world_map_from_grid() {
    let tiles = WorldTiles::new("~ SEA\n. PLAIN").unwrap();
    let world = World::new("~.\n.~~", &tiles).unwrap();
    assert_eq!(world.height, 2);
    assert_eq!(world.width, 3);
    assert_eq!(world.rows[1].cols, vec!["PLAIN".to_string(), "SEA".to_string(), "SEA".to_string()]);
    assert_eq!(world._tile_id(0, 1), Some("PLAIN".to_string()));
    assert_eq!(world._tile_id(-1, 0), None);
    assert_eq!(world._tile_id(0, 2), None);
    assert!(World::new("~x", &tiles).is_err());
    let wide = WorldTiles::new("\u{e9} SNOW\n. PLAIN").unwrap();
    let world = World::new("\u{e9}\n..", &wide).unwrap();
    assert_eq!(world.width, 1);
    assert_eq!(world.rows[0].cols, vec!["SNOW".to_string()]);
    assert!(World::new("", &tiles).is_err());
}

#[test]
fn world_from_source_blocks() {
    let world = world::new("::LEGEND\n~ SEA\n. PLAIN*\n::GEO\n.~\n").unwrap();
    assert_eq!(world.rows.len(), 1);
    assert_eq!(world.rows[0].cols, vec!["PLAIN".to_string(), "SEA".to_string()]);
    assert!(world::new("::GEO\n.~\n").is_err());
}

#[test]
fn zone_tiles_from_definitions() {
    let def = |id: &str, ch: &str| {
        JsonValue::Object(vec![
            ("id".to_string(), JsonValue::Str(id.to_string())),
            ("char".to_string(), JsonValue::Str(ch.to_string())),
            ("traversable".to_string(), JsonValue::Object(vec![("WALKING".to_string(), JsonValue::Bool(id == "GRASS"))])),
        ])
    };
    let tiles = ZoneTiles::new(JsonValue::Array(vec![def("GRASS", "."), def("ROCK", "#")])).unwrap();
    assert_eq!(tiles.tile_id('.' as u16), "GRASS");
    assert_eq!(tiles.tile_id('?' as u16), "UNKNOWN");
    assert!(tiles.browseable("GRASS"));
    assert!(!tiles.browseable("ROCK"));
    assert!(!tiles.browseable("NOTHING"));
    assert!(ZoneTiles::new(JsonValue::Null).is_err());
    assert!(ZoneTiles::new(JsonValue::Array(vec![def("GRASS", "")])).is_err());
}

#[test]
fn zone_built_from_sources() {
    let world = world::new("::LEGEND\n. PLAIN\n::GEO\n..\n").unwrap();
    let def = JsonValue::Object(vec![
        ("id".to_string(), JsonValue::Str("GRASS".to_string())),
        ("char".to_string(), JsonValue::Str(".".to_string())),
    ]);
    let zone = zone::new(&world, 0, 1, vec![], JsonValue::Array(vec![def]), "::GEO\n...\n.", vec![], vec![]).unwrap();
    assert_eq!(zone.world_tile_type_id, "PLAIN");
    assert_eq!(zone.height, 2);
    assert_eq!(zone.width, 3);
    assert_eq!(zone.tile_id(1, 0), "GRASS");
    let def = JsonValue::Object(vec![
        ("id".to_string(), JsonValue::Str("GRASS".to_string())),
        ("char".to_string(), JsonValue::Str(".".to_string())),
    ]);
    assert!(zone::new(&world, 3, 0, vec![], JsonValue::Array(vec![def]), "::GEO\n.", vec![], vec![]).is_err());
}
