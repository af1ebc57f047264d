use std::collections::HashMap;
use vstd::prelude::*;

use crate::error::Error;
use crate::json::{spec_bool_of, spec_member, spec_str_of, JsonValue};
use crate::text::{chars_of, lines, spec_lines, trim, trimmed_end, trimmed_start, views};

verus! {

broadcast use vstd::std_specs::hash::group_hash_axioms;

/// Identifier of a kind of tile ("GRASS", "WATER", ...).
pub type TileId = String;

/// Tile id of every coordinate outside a zone's grid.
pub const NOTHING: &'static str = "NOTHING";

/// Tile id of a grid character that no tile definition names.
pub const UNKNOWN: &'static str = "UNKNOWN";

/// The walking permission last recorded for `id` among the first `n` entries;
/// none is `false`.
pub open spec fn browseable_upto(entries: Seq<(String, bool)>, id: Seq<char>, n: int) -> bool
    decreases n,
{
    if n <= 0 || n > entries.len() {
        false
    } else if entries[n - 1].0@ == id {
        entries[n - 1].1
    } else {
        browseable_upto(entries, id, n - 1)
    }
}

/// A lookup among the first `n` entries does not see entries added after them.
proof fn lemma_browseable_upto_push(entries: Seq<(String, bool)>, e: (String, bool), id: Seq<char>, n: int)
    requires
        0 <= n <= entries.len(),
    ensures
        browseable_upto(entries.push(e), id, n) == browseable_upto(entries, id, n),
    decreases n,
{
    if n > 0 {
        lemma_browseable_upto_push(entries, e, id, n - 1);
    }
}

/// The code of a grid character: its scalar value cut to 16 bits.
pub open spec fn spec_char_code(c: char) -> u16 {
    ((c as u32) % 0x10000) as u16
}

pub fn char_code(c: char) -> (r: u16)
    ensures
        r == spec_char_code(c),
{
    let x: u32 = c as u32;
    (x % 0x10000) as u16
}

/// A tile definition of the server: its code, its id, and whether it can be
/// walked on when it says so.
pub open spec fn zone_tile_entry(v: JsonValue) -> Option<(u16, Seq<char>, Option<bool>)> {
    match (spec_str_of(spec_member(v, "id"@)), spec_str_of(spec_member(v, "char"@))) {
        (Some(id), Some(ch)) => if ch.len() > 0 {
            let walking = spec_bool_of(
                spec_member(spec_member(v, "traversable"@).unwrap_or(JsonValue::Null), "WALKING"@),
            );
            Some((spec_char_code(ch[0]), id, walking))
        } else {
            None
        },
        _ => None,
    }
}

/// The code table and the walking table that the first `n` definitions give,
/// later definitions overriding earlier ones; none if one of them is malformed.
pub open spec fn zone_tiles_prefix(entries: Seq<JsonValue>, n: int) -> Option<(Map<u16, Seq<char>>, Map<Seq<char>, bool>)>
    decreases n,
{
    if n <= 0 {
        Some((Map::empty(), Map::empty()))
    } else {
        match (zone_tiles_prefix(entries, n - 1), zone_tile_entry(entries[n - 1])) {
            (Some((codes, walk)), Some((code, id, walking))) => Some(
                (
                    codes.insert(code, id),
                    match walking {
                        Some(b) => walk.insert(id, b),
                        None => walk,
                    },
                ),
            ),
            _ => None,
        }
    }
}

/// Once a definition is malformed, no longer prefix has tables either.
proof fn lemma_zone_tiles_prefix_none(entries: Seq<JsonValue>, n: int, m: int)
    requires
        0 <= n <= m,
        zone_tiles_prefix(entries, n) is None,
    ensures
        zone_tiles_prefix(entries, m) is None,
    decreases m - n,
{
    if n < m {
        lemma_zone_tiles_prefix_none(entries, n, m - 1);
    }
}

/// The tiles answer as the tables say.
pub open spec fn tiles_match(t: &ZoneTiles, codes: Map<u16, Seq<char>>, walk: Map<Seq<char>, bool>) -> bool {
    &&& forall|code: u16| #[trigger] t.spec_tile_id(code) == if codes.contains_key(code) {
        codes[code]
    } else {
        UNKNOWN@
    }
    &&& forall|id: Seq<char>| #[trigger] t.spec_browseable(id) == (walk.contains_key(id) && walk[id])
}

/// The tile definitions of zones: which tile each grid character stands for,
/// and which tiles can be walked on.
#[derive(Debug)]
pub struct ZoneTiles {
    codes: HashMap<u16, TileId>,
    browseables: Vec<(TileId, bool)>,
}

impl ZoneTiles {
    /// The tile id that the grid character `code` stands for.
    pub closed spec fn spec_tile_id(&self, code: u16) -> Seq<char> {
        if self.codes@.contains_key(code) {
            self.codes@[code]@
        } else {
            UNKNOWN@
        }
    }

    /// Whether the tile `id` can be walked on; unknown tiles cannot.
    pub closed spec fn spec_browseable(&self, id: Seq<char>) -> bool {
        browseable_upto(self.browseables@, id, self.browseables@.len() as int)
    }

    /// Reads the tile definitions of the server: an array of objects, each with
    /// its `id`, its grid `char` and, optionally, whether `traversable.WALKING`.
    pub fn new(data: JsonValue) -> (r: Result<Self, Error>)
        ensures
            match data {
                JsonValue::Array(es) => match zone_tiles_prefix(es@, es@.len() as int) {
                    Some(tables) => r matches Ok(t) && tiles_match(&t, tables.0, tables.1),
                    None => r is Err,
                },
                _ => r is Err,
            },
    {
        let entries = match &data {
            JsonValue::Array(es) => es,
            _ => {
                return Err(Error::new(String::from_str("Unable to parse ZoneTiles array")));
            },
        };
        let mut codes: HashMap<u16, TileId> = HashMap::new();
        let mut browseables: Vec<(TileId, bool)> = Vec::new();
        let ghost mut code_table: Map<u16, Seq<char>> = Map::empty();
        let ghost mut walk_table: Map<Seq<char>, bool> = Map::empty();
        let mut i: usize = 0;
        proof {
            assert(codes@.map_values(|v: String| v@) =~= code_table);
        }
        while i < entries.len()
            invariant
                0 <= i <= entries.len(),
                data matches JsonValue::Array(es) && es@ == entries@,
                zone_tiles_prefix(entries@, i as int) == Some((code_table, walk_table)),
                codes@.map_values(|v: String| v@) == code_table,
                forall|id: Seq<char>| #[trigger] browseable_upto(browseables@, id, browseables@.len() as int) == (
                walk_table.contains_key(id) && walk_table[id]),
            decreases entries.len() - i,
        {
            let tile_value = &entries[i];
            let tile_id = match tile_value.member_str("id") {
                Some(id) => id,
                None => {
                    proof {
                        lemma_zone_tiles_prefix_none(entries@, i + 1, entries@.len() as int);
                    }
                    return Err(Error::new(String::from_str("Unable to find tile id")));
                },
            };
            let ch = match tile_value.member_str("char") {
                Some(ch) => ch,
                None => {
                    proof {
                        lemma_zone_tiles_prefix_none(entries@, i + 1, entries@.len() as int);
                    }
                    return Err(Error::new(String::from_str("Unable to find tile char")));
                },
            };
            let cs = chars_of(ch.as_str());
            if cs.len() == 0 {
                proof {
                    lemma_zone_tiles_prefix_none(entries@, i + 1, entries@.len() as int);
                }
                return Err(Error::new(String::from_str("Unable to find tile char")));
            }
            let code = char_code(cs[0]);
            let walking = match tile_value.member("traversable") {
                Some(t) => t.member_bool("WALKING"),
                None => JsonValue::Null.member_bool("WALKING"),
            };
            let key = tile_id.clone();
            codes.insert(code, tile_id);
            proof {
                code_table = code_table.insert(code, key@);
                assert(codes@.map_values(|v: String| v@) =~= code_table);
            }
            if let Some(can_walk) = walking {
                let ghost old_entries = browseables@;
                let ghost entry = (key, can_walk);
                browseables.push((key, can_walk));
                proof {
                    walk_table = walk_table.insert(entry.0@, can_walk);
                    assert forall|id: Seq<char>| #[trigger] browseable_upto(browseables@, id, browseables@.len() as int) == (
                    walk_table.contains_key(id) && walk_table[id]) by {
                        lemma_browseable_upto_push(old_entries, entry, id, old_entries.len() as int);
                    }
                }
            }
            i = i + 1;
        }
        let tiles = ZoneTiles { codes, browseables };
        proof {
            assert(tiles_match(&tiles, code_table, walk_table)) by {
                assert forall|code: u16| #[trigger] tiles.spec_tile_id(code) == if code_table.contains_key(code) {
                    code_table[code]
                } else {
                    UNKNOWN@
                } by {
                    if code_table.contains_key(code) {
                        assert(tiles.codes@.map_values(|v: String| v@)[code] == tiles.codes@[code]@);
                    }
                }
            }
        }
        Ok(tiles)
    }

    pub fn tile_id(&self, code: u16) -> (r: String)
        ensures
            r@ == self.spec_tile_id(code),
    {
        if let Some(tile_id) = self.codes.get(&code) {
            return tile_id.clone();
        }
        String::from_str(UNKNOWN)
    }

    pub fn browseable(&self, tile_id: &str) -> (r: bool)
        ensures
            r == self.spec_browseable(tile_id@),
    {
        let wanted = String::from_str(tile_id);
        let mut n: usize = self.browseables.len();
        while n > 0
            invariant
                0 <= n <= self.browseables.len(),
                wanted@ == tile_id@,
                browseable_upto(self.browseables@, tile_id@, self.browseables@.len() as int) == browseable_upto(
                    self.browseables@,
                    tile_id@,
                    n as int,
                ),
            decreases n,
        {
            if self.browseables[n - 1].0 == wanted {
                return self.browseables[n - 1].1;
            }
            n = n - 1;
        }
        false
    }
}

/// ASCII white space, as `split_ascii_whitespace` splits on it.
pub open spec fn is_ascii_white_space(c: char) -> bool {
    c == ' ' || c == '\t' || c == '\n' || c == '\x0C' || c == '\r'
}

/// The first index from `i` on that holds no ASCII white space.
pub open spec fn skip_white(t: Seq<char>, i: int) -> int
    decreases t.len() - i,
{
    if i < 0 || i >= t.len() || !is_ascii_white_space(t[i]) {
        i
    } else {
        skip_white(t, i + 1)
    }
}

/// The first index from `i` on that holds ASCII white space, or the end.
pub open spec fn token_end(t: Seq<char>, i: int) -> int
    decreases t.len() - i,
{
    if i < 0 || i >= t.len() || is_ascii_white_space(t[i]) {
        i
    } else {
        token_end(t, i + 1)
    }
}

/// `t` without its trailing `*`.
pub open spec fn without_stars(t: Seq<char>) -> Seq<char>
    decreases t.len(),
{
    if t.len() > 0 && t.last() == '*' {
        without_stars(t.drop_last())
    } else {
        t
    }
}

/// A legend line: the code of the first character of its first word, the id that
/// its second word names, and whether that id is starred as the default tile.
pub open spec fn legend_entry(line: Seq<char>) -> Option<(u16, Seq<char>, bool)> {
    let a1 = skip_white(line, 0);
    let e1 = token_end(line, a1);
    let a2 = skip_white(line, e1);
    let e2 = token_end(line, a2);
    let c = trimmed_start(trimmed_end(line.subrange(a1, e1)));
    let id = trimmed_start(trimmed_end(line.subrange(a2, e2)));
    if a1 >= line.len() || c.len() == 0 || a2 >= line.len() {
        None
    } else {
        Some((spec_char_code(c[0]), without_stars(id), id.len() > 0 && id.last() == '*'))
    }
}

/// The code table and default tile that the first `n` legend lines give, later
/// lines overriding earlier ones; none if one of them is malformed.
pub open spec fn legend_prefix(ls: Seq<Seq<char>>, n: int) -> Option<(Map<u16, Seq<char>>, Option<Seq<char>>)>
    decreases n,
{
    if n <= 0 {
        Some((Map::empty(), None))
    } else {
        match (legend_prefix(ls, n - 1), legend_entry(ls[n - 1])) {
            (Some((codes, default)), Some((code, id, starred))) => Some(
                (codes.insert(code, id), if starred { Some(id) } else { default }),
            ),
            _ => None,
        }
    }
}

proof fn lemma_legend_prefix_none(ls: Seq<Seq<char>>, n: int, m: int)
    requires
        0 <= n <= m,
        legend_prefix(ls, n) is None,
    ensures
        legend_prefix(ls, m) is None,
    decreases m - n,
{
    if n < m {
        lemma_legend_prefix_none(ls, n, m - 1);
    }
}

fn skip_white_from(cs: &Vec<char>, i: usize) -> (r: usize)
    requires
        i <= cs.len(),
    ensures
        r == skip_white(cs@, i as int),
        i <= r <= cs.len(),
{
    let mut j: usize = i;
    while j < cs.len() && (cs[j] == ' ' || cs[j] == '\t' || cs[j] == '\n' || cs[j] == '\x0C' || cs[j] == '\r')
        invariant
            i <= j <= cs.len(),
            skip_white(cs@, i as int) == skip_white(cs@, j as int),
        decreases cs.len() - j,
    {
        j = j + 1;
    }
    j
}

fn token_end_from(cs: &Vec<char>, i: usize) -> (r: usize)
    requires
        i <= cs.len(),
    ensures
        r == token_end(cs@, i as int),
        i <= r <= cs.len(),
{
    let mut j: usize = i;
    while j < cs.len() && !(cs[j] == ' ' || cs[j] == '\t' || cs[j] == '\n' || cs[j] == '\x0C' || cs[j] == '\r')
        invariant
            i <= j <= cs.len(),
            token_end(cs@, i as int) == token_end(cs@, j as int),
        decreases cs.len() - j,
    {
        j = j + 1;
    }
    j
}

/// `s` without its trailing `*`.
fn strip_stars<'a>(s: &'a str) -> (r: &'a str)
    ensures
        r@ == without_stars(s@),
{
    let cs = chars_of(s);
    let mut end: usize = cs.len();
    proof {
        assert(s@.subrange(0, end as int) =~= s@);
    }
    while end > 0 && cs[end - 1] == '*'
        invariant
            0 <= end <= cs.len(),
            cs@ == s@,
            without_stars(s@) == without_stars(s@.subrange(0, end as int)),
        decreases end,
    {
        proof {
            assert(s@.subrange(0, end as int).drop_last() =~= s@.subrange(0, end - 1));
        }
        end = end - 1;
    }
    s.substring_char(0, end)
}

/// Reads one legend line.
fn parse_legend_line(line: &str) -> (r: Result<(u16, String, bool), Error>)
    ensures
        match r {
            Ok((code, id, starred)) => legend_entry(line@) == Some((code, id@, starred)),
            Err(_) => legend_entry(line@) is None,
        },
{
    let cs = chars_of(line);
    let a1 = skip_white_from(&cs, 0);
    if a1 >= cs.len() {
        return Err(Error::new(String::from_str("Unable to split tile line")));
    }
    let e1 = token_end_from(&cs, a1);
    let first = trim(line.substring_char(a1, e1));
    let first_chars = chars_of(first);
    if first_chars.len() == 0 {
        return Err(Error::new(String::from_str("Unable to read char from line")));
    }
    let a2 = skip_white_from(&cs, e1);
    if a2 >= cs.len() {
        return Err(Error::new(String::from_str("Unable to read second tile part from line")));
    }
    let e2 = token_end_from(&cs, a2);
    let id = trim(line.substring_char(a2, e2));
    let id_chars = chars_of(id);
    let starred = id_chars.len() > 0 && id_chars[id_chars.len() - 1] == '*';
    let code = char_code(first_chars[0]);
    Ok((code, String::from_str(strip_stars(id)), starred))
}

/// The tile definitions of the world map: which tile each map character stands
/// for, and the default tile.
#[derive(Debug)]
pub struct WorldTiles {
    codes: HashMap<u16, TileId>,
    pub default: Option<TileId>,
}

impl WorldTiles {
    /// The tile ids of the map characters, by code.
    pub closed spec fn spec_codes(&self) -> Map<u16, Seq<char>> {
        self.codes@.map_values(|v: String| v@)
    }

    /// The id of the default tile, if the legend names one.
    pub closed spec fn spec_default(&self) -> Option<Seq<char>> {
        match self.default {
            Some(d) => Some(d@),
            None => None,
        }
    }

    /// Reads a legend: one line per map character, its character then its tile
    /// id, the default tile's id marked with a trailing `*`.
    pub fn new(legend: &str) -> (r: Result<Self, Error>)
        ensures
            match legend_prefix(spec_lines(legend@), spec_lines(legend@).len() as int) {
                Some((codes, default)) => r matches Ok(t) && t.spec_codes() == codes && t.spec_default() == default,
                None => r is Err,
            },
    {
        let ls = lines(legend);
        let mut codes: HashMap<u16, TileId> = HashMap::new();
        let mut default_tile_id: Option<TileId> = None;
        let ghost mut code_table: Map<u16, Seq<char>> = Map::empty();
        let ghost mut default_id: Option<Seq<char>> = None;
        proof {
            assert(codes@.map_values(|v: String| v@) =~= code_table);
        }
        let mut i: usize = 0;
        while i < ls.len()
            invariant
                0 <= i <= ls.len(),
                views(ls@) == spec_lines(legend@),
                legend_prefix(views(ls@), i as int) == Some((code_table, default_id)),
                codes@.map_values(|v: String| v@) == code_table,
                match default_tile_id {
                    Some(d) => default_id == Some(d@),
                    None => default_id is None,
                },
            decreases ls.len() - i,
        {
            match parse_legend_line(ls[i]) {
                Err(e) => {
                    proof {
                        lemma_legend_prefix_none(views(ls@), i + 1, ls@.len() as int);
                    }
                    return Err(e);
                },
                Ok((code, id, starred)) => {
                    if starred {
                        default_tile_id = Some(id.clone());
                    }
                    proof {
                        code_table = code_table.insert(code, id@);
                        if starred {
                            default_id = Some(id@);
                        }
                    }
                    codes.insert(code, id);
                    proof {
                        assert(codes@.map_values(|v: String| v@) =~= code_table);
                    }
                },
            }
            i = i + 1;
        }
        Ok(WorldTiles { codes, default: default_tile_id })
    }

    /// The tile id that the map character `code` stands for.
    pub fn tile_id(&self, code: u16) -> (r: Result<String, Error>)
        ensures
            match r {
                Ok(id) => self.spec_codes().contains_key(code) && id@ == self.spec_codes()[code],
                Err(_) => !self.spec_codes().contains_key(code),
            },
    {
        match self.codes.get(&code) {
            Some(id) => Ok(id.clone()),
            None => Err(Error::new(String::from_str("Unable to find tile_id for code"))),
        }
    }
}

} // verus!
