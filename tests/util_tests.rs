use animated_corpse::util::{
    direction_modifier, extract_block_from_source, is_near, longest_line, opposite_direction,
    position_direction_from, Direction,
};

#[test]
fn direction_of_west_neighbor() {
    assert_eq!(position_direction_from((5, 5), (5, 4)), Some(Direction::West));
}

#[test]
fn direction_table_corners_and_center() {
    assert_eq!(position_direction_from((5, 5), (5, 5)), None);
    assert_eq!(position_direction_from((5, 5), (3, 3)), Some(Direction::North));
    assert_eq!(position_direction_from((5, 5), (4, 7)), Some(Direction::Est));
    assert_eq!(position_direction_from((5, 5), (6, 3)), Some(Direction::West));
    assert_eq!(position_direction_from((5, 5), (7, 7)), Some(Direction::South));
}

#[test]
fn direction_outside_window_is_none() {
    assert_eq!(position_direction_from((5, 5), (8, 5)), None);
    assert_eq!(position_direction_from((5, 5), (5, 0)), None);
    assert_eq!(position_direction_from((0, 0), (u32::MAX, 0)), None);
}

#[test]
fn opposite_and_modifier() {
    assert_eq!(opposite_direction(Direction::West), Direction::Est);
    assert_eq!(opposite_direction(Direction::NorthEst), Direction::SouthWest);
    assert_eq!(direction_modifier(Direction::Est), (0, 1));
    assert_eq!(direction_modifier(Direction::NorthWest), (-1, -1));
}

#[test]
fn chebyshev_proximity() {
    assert!(is_near((0, 0), (2, 2), 2));
    assert!(!is_near((0, 0), (3, 1), 2));
    assert!(is_near((10, 4), (8, 6), 2));
    assert!(!is_near((u32::MAX, 0), (0, 0), 2));
}

#[test]
fn longest_line_trims_and_picks_first_longest() {
    assert_eq!(longest_line("ab  \nabc\nxyz\n"), Some("abc"));
    assert_eq!(longest_line(""), None);
    assert_eq!(longest_line("   \n\t\n"), None);
}

#[test]
fn longest_line_compares_byte_lengths() {
    // Both lines take two bytes: the first one wins.
    assert_eq!(longest_line("\u{e9}\nab"), Some("\u{e9}"));
    // Three bytes against two characters of one byte each.
    assert_eq!(longest_line("ab\n\u{2014}"), Some("\u{2014}"));
}

#[test]
fn block_extraction() {
    let source = "::LEGEND\nA GRASS*\nB WATER\n::GEO\nAB\nBA\n::OTHER\nzz";
    assert_eq!(extract_block_from_source("GEO", source), Ok("AB\nBA".to_string()));
    assert_eq!(extract_block_from_source("LEGEND", source), Ok("A GRASS*\nB WATER".to_string()));
    assert_eq!(
        extract_block_from_source("MISSING", source),
        Err("Block \"MISSING\" not found".to_string())
    );
}

#[test]
fn block_extraction_header_spacing_and_crlf() {
    let source = ":: GEO \r\nxy\r\n::: GEO\r\nzw\r\n";
    assert_eq!(extract_block_from_source("GEO", source), Ok("xy".to_string()));
    let source = ":: GEO \r\nxy\r\n::GEO\r\nzw\r\n";
    assert_eq!(extract_block_from_source("GEO", source), Ok("xy\nzw".to_string()));
}
