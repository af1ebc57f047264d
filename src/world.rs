use vstd::prelude::*;

use crate::error::Error;
use crate::text::{chars_of, lines, spec_lines, views};
use crate::tile::{legend_prefix, spec_char_code, WorldTiles};
use crate::util::{extract_block_from_source, longest_line, spec_extract_block, spec_longest_line, BLOCK_GEO};

verus! {

/// One row of the world map: the tile id of each zone.
#[derive(Clone, Debug)]
pub struct WorldRow {
    pub cols: Vec<String>,
}

/// The world map: one tile id per zone.
#[derive(Clone, Debug)]
pub struct World {
    pub width: i32,
    pub height: i32,
    pub rows: Vec<WorldRow>,
}

/// Every character of the grid has a tile id in `codes`.
pub open spec fn grid_known(ls: Seq<Seq<char>>, codes: Map<u16, Seq<char>>) -> bool {
    forall|r: int, c: int|
        0 <= r < ls.len() && 0 <= c < ls[r].len() ==> codes.contains_key(#[trigger] spec_char_code(ls[r][c]))
}

/// The rows hold, cell by cell, the tile id of the grid's characters.
pub open spec fn world_rows_match(rows: Seq<WorldRow>, ls: Seq<Seq<char>>, codes: Map<u16, Seq<char>>) -> bool {
    &&& rows.len() == ls.len()
    &&& forall|r: int| 0 <= r < ls.len() ==> (#[trigger] rows[r]).cols@.len() == ls[r].len()
    &&& forall|r: int, c: int|
        0 <= r < ls.len() && 0 <= c < ls[r].len() ==> (#[trigger] rows[r].cols@[c])@ == codes[spec_char_code(ls[r][c])]
}

/// A length as an `i32`, wrapping when it does not fit.
pub fn length_as_i32(n: usize) -> (r: i32)
    ensures
        n <= i32::MAX ==> r == n,
{
    #[verifier::truncate]
    (n as i32)
}

/// The tile ids of a map line, or the first failure to find one.
fn world_row_of(line: &str, tiles: &WorldTiles) -> (r: Result<WorldRow, Error>)
    ensures
        match r {
            Ok(row) => {
                &&& row.cols@.len() == line@.len()
                &&& forall|c: int|
                    0 <= c < line@.len() ==> #[trigger] tiles.spec_codes().contains_key(spec_char_code(line@[c]))
                &&& forall|c: int|
                    0 <= c < line@.len() ==> (#[trigger] row.cols@[c])@ == tiles.spec_codes()[spec_char_code(line@[c])]
            },
            Err(_) => exists|c: int|
                0 <= c < line@.len() && !tiles.spec_codes().contains_key(#[trigger] spec_char_code(line@[c])),
        },
{
    let cs = chars_of(line);
    let mut cols: Vec<String> = Vec::new();
    let mut i: usize = 0;
    while i < cs.len()
        invariant
            0 <= i <= cs.len(),
            cs@ == line@,
            cols@.len() == i,
            forall|c: int| 0 <= c < i ==> #[trigger] tiles.spec_codes().contains_key(spec_char_code(line@[c])),
            forall|c: int| 0 <= c < i ==> (#[trigger] cols@[c])@ == tiles.spec_codes()[spec_char_code(line@[c])],
        decreases cs.len() - i,
    {
        let code = crate::tile::char_code(cs[i]);
        let ghost prev = cols@;
        match tiles.tile_id(code) {
            Ok(tile_id) => {
                assert(code == spec_char_code(line@[i as int]));
                assert(tiles.spec_codes().contains_key(code));
                assert(tile_id@ == tiles.spec_codes()[code]);
                cols.push(tile_id);
                assert(cols@[i as int]@ == tiles.spec_codes()[code]);
            },
            Err(e) => {
                proof {
                    assert(!tiles.spec_codes().contains_key(spec_char_code(line@[i as int])));
                }
                return Err(e);
            },
        }
        proof {
            assert forall|c: int| 0 <= c < i + 1 implies (#[trigger] cols@[c])@ == tiles.spec_codes()[spec_char_code(
                line@[c],
            )] by {
                if c < i {
                    assert(cols@[c] == prev[c]);
                }
            }
        }
        i = i + 1;
    }
    Ok(WorldRow { cols })
}

impl World {
    /// Builds the world map from its grid: one character per zone, each read in
    /// the legend `tiles`.
    pub fn new(world_raw: &str, tiles: &WorldTiles) -> (r: Result<Self, Error>)
        ensures
            r is Ok <==> spec_longest_line(world_raw@) is Some && grid_known(spec_lines(world_raw@), tiles.spec_codes()),
            r matches Ok(w) ==> {
                &&& world_rows_match(w.rows@, spec_lines(world_raw@), tiles.spec_codes())
                &&& spec_lines(world_raw@).len() <= i32::MAX ==> w.height == spec_lines(world_raw@).len()
                &&& spec_longest_line(world_raw@) matches Some(l) && (l.len() <= i32::MAX ==> w.width == l.len())
            },
    {
        let ls = lines(world_raw);
        let height = length_as_i32(ls.len());
        let longest = match longest_line(world_raw) {
            Some(l) => l,
            None => {
                return Err(Error::new(String::from_str("World raw seem to be empty")));
            },
        };
        let width = length_as_i32(chars_of(longest).len());
        let mut rows: Vec<WorldRow> = Vec::new();
        let mut i: usize = 0;
        while i < ls.len()
            invariant
                0 <= i <= ls.len(),
                views(ls@) == spec_lines(world_raw@),
                rows@.len() == i,
                forall|r: int| 0 <= r < i ==> (#[trigger] rows@[r]).cols@.len() == ls@[r]@.len(),
                forall|r: int, c: int|
                    0 <= r < i && 0 <= c < ls@[r]@.len() ==> #[trigger] tiles.spec_codes().contains_key(
                        spec_char_code(ls@[r]@[c]),
                    ),
                forall|r: int, c: int|
                    0 <= r < i && 0 <= c < ls@[r]@.len() ==> (#[trigger] rows@[r].cols@[c])@ == tiles.spec_codes()[spec_char_code(ls@[r]@[c])],
            decreases ls.len() - i,
        {
            let ghost prev = rows@;
            match world_row_of(ls[i], tiles) {
                Ok(row) => {
                    rows.push(row);
                    proof {
                        assert forall|r: int, c: int|
                            0 <= r < i + 1 && 0 <= c < ls@[r]@.len() implies (#[trigger] rows@[r].cols@[c])@ == tiles.spec_codes()[spec_char_code(ls@[r]@[c])] by {
                            if r < i {
                                assert(rows@[r] == prev[r]);
                            }
                        }
                        assert forall|r: int| 0 <= r < i + 1 implies (#[trigger] rows@[r]).cols@.len() == ls@[r]@.len() by {
                            if r < i {
                                assert(rows@[r] == prev[r]);
                            }
                        }
                    }
                },
                Err(e) => {
                    proof {
                        let c = choose|c: int|
                            0 <= c < ls@[i as int]@.len() && !tiles.spec_codes().contains_key(
                                #[trigger] spec_char_code(ls@[i as int]@[c]),
                            );
                        assert(views(ls@)[i as int] == ls@[i as int]@);
                        assert(!tiles.spec_codes().contains_key(spec_char_code(spec_lines(world_raw@)[i as int][c])));
                    }
                    return Err(e);
                },
            }
            i = i + 1;
        }
        proof {
            assert forall|r: int, c: int|
                0 <= r < spec_lines(world_raw@).len() && 0 <= c < spec_lines(world_raw@)[r].len() implies tiles.spec_codes().contains_key(
                #[trigger] spec_char_code(spec_lines(world_raw@)[r][c])) by {
                assert(views(ls@)[r] == ls@[r]@);
            }
            assert forall|r: int, c: int|
                0 <= r < spec_lines(world_raw@).len() && 0 <= c < spec_lines(world_raw@)[r].len() implies (#[trigger] rows@[r].cols@[c])@
                == tiles.spec_codes()[spec_char_code(spec_lines(world_raw@)[r][c])] by {
                assert(views(ls@)[r] == ls@[r]@);
            }
            assert forall|r: int| 0 <= r < spec_lines(world_raw@).len() implies (#[trigger] rows@[r]).cols@.len()
                == spec_lines(world_raw@)[r].len() by {
                assert(views(ls@)[r] == ls@[r]@);
            }
        }
        Ok(Self { width, height, rows })
    }

    /// The tile id of the zone at (`row_i`, `col_i`), if the map has it.
    pub fn _tile_id(&self, row_i: i32, col_i: i32) -> (r: Option<String>)
        ensures
            match r {
                Some(id) => 0 <= row_i < self.rows@.len() && 0 <= col_i < self.rows@[row_i as int].cols@.len()
                    && id@ == self.rows@[row_i as int].cols@[col_i as int]@,
                None => !(0 <= row_i < self.rows@.len() && 0 <= col_i < self.rows@[row_i as int].cols@.len()),
            },
    {
        if row_i < 0 || col_i < 0 {
            return None;
        }
        if row_i as usize >= self.rows.len() {
            return None;
        }
        let row = &self.rows[row_i as usize];
        if col_i as usize >= row.cols.len() {
            return None;
        }
        Some(row.cols[col_i as usize].clone())
    }
}

/// Builds the world map from the world's source text: its `LEGEND` block read as
/// the legend, its `GEO` block as the map.
pub fn new(world_source: &str) -> (r: Result<World, Error>)
    ensures
        match (spec_extract_block("LEGEND"@, world_source@), spec_extract_block(BLOCK_GEO@, world_source@)) {
            (Some(legend), Some(geo)) => match legend_prefix(spec_lines(legend), spec_lines(legend).len() as int) {
                Some((codes, _)) => {
                    &&& (r is Ok <==> spec_longest_line(geo) is Some && grid_known(spec_lines(geo), codes))
                    &&& r matches Ok(w) ==> world_rows_match(w.rows@, spec_lines(geo), codes)
                },
                None => r is Err,
            },
            _ => r is Err,
        },
{
    let legend = match extract_block_from_source("LEGEND", world_source) {
        Ok(l) => l,
        Err(message) => {
            return Err(Error::new(message));
        },
    };
    let world_raw = match extract_block_from_source(BLOCK_GEO, world_source) {
        Ok(w) => w,
        Err(message) => {
            return Err(Error::new(message));
        },
    };
    let world_tiles = WorldTiles::new(legend.as_str())?;
    World::new(world_raw.as_str(), &world_tiles)
}

} // verus!
