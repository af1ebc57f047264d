use vstd::prelude::*;

use crate::ac::{spec_position_sync, AnimatedCorpse, AnimatedCorpseBase};
use crate::behavior::{
    behaviors_on_event, behaviors_on_tick, draw_successor, get_behaviors_for, spec_behaviors_for, valid_pick,
};
use crate::event::{EventTypeView, EventView, ZoneEvent, ZoneEventType};
use crate::message::{Message, ZoneMessage};
use crate::model::{Build, Character};
use crate::error::Error;
use crate::json::JsonValue;
use crate::text::{chars_of, lines, spec_lines, views};
use crate::tile::{char_code, spec_char_code, tiles_match, zone_tiles_prefix, TileId, ZoneTiles, NOTHING};
use crate::util::{extract_block_from_source, longest_line, spec_extract_block, spec_longest_line, BLOCK_GEO};
use crate::world::{length_as_i32, World};

verus! {

/// One row of a zone's tile grid.
#[derive(Debug)]
pub struct LevelRow {
    pub cols: Vec<String>,
}

/// A spatial partition of the world: its tile grid, the animated corpses inside it,
/// and the characters and builds mirrored from the server.
pub struct Zone {
    pub world_row_i: u32,
    pub world_col_i: u32,
    pub animated_corpses: Vec<AnimatedCorpse>,
    pub characters: Vec<Character>,
    pub builds: Vec<Build>,
    pub width: i32,
    pub height: i32,
    pub rows: Vec<LevelRow>,
    pub world_tile_type_id: TileId,
    pub tiles: ZoneTiles,
}

/// The tile id at (`row_i`, `col_i`) of a grid; `NOTHING` outside it.
pub open spec fn spec_tile_at(rows: Seq<LevelRow>, row_i: int, col_i: int) -> Seq<char> {
    if 0 <= row_i < rows.len() && 0 <= col_i < rows[row_i].cols@.len() {
        rows[row_i].cols@[col_i]@
    } else {
        NOTHING@
    }
}

/// The successor contributed by the neighbor (`row_i`, `col_i`): itself, with
/// weight 1, when both coordinates are representable and its tile can be walked on.
pub open spec fn successor_at(zone: &Zone, row_i: int, col_i: int) -> Seq<((u32, u32), u32)> {
    if 0 <= row_i <= u32::MAX && 0 <= col_i <= u32::MAX && zone.spec_traversable(row_i, col_i) {
        seq![((row_i as u32, col_i as u32), 1u32)]
    } else {
        seq![]
    }
}

/// The successors of a position, visiting its eight neighbors in the order
/// (-1,-1), (-1,0), (-1,1), (0,-1), (0,1), (1,1), (1,-1), (1,0).
pub open spec fn spec_successors(zone: &Zone, row_i: u32, col_i: u32) -> Seq<((u32, u32), u32)> {
    let r = row_i as int;
    let c = col_i as int;
    successor_at(zone, r - 1, c - 1) + successor_at(zone, r - 1, c) + successor_at(zone, r - 1, c + 1)
        + successor_at(zone, r, c - 1) + successor_at(zone, r, c + 1) + successor_at(zone, r + 1, c + 1)
        + successor_at(zone, r + 1, c - 1) + successor_at(zone, r + 1, c)
}

/// The positions of the successors, without their weights.
pub open spec fn successor_positions(zone: &Zone, row_i: u32, col_i: u32) -> Seq<(u32, u32)> {
    spec_successors(zone, row_i, col_i).map_values(|s: ((u32, u32), u32)| s.0)
}

/// `a` and `b` are distinct cells that touch, sides or corners.
pub open spec fn is_moore_neighbor(a: (u32, u32), b: (u32, u32)) -> bool {
    &&& -1 <= a.0 - b.0 <= 1
    &&& -1 <= a.1 - b.1 <= 1
    &&& a != b
}

/// A corpse after a mutation that moves the corpse `id` within its zone.
pub open spec fn corpse_after_move(c: AnimatedCorpse, id: u32, zone_row_i: u32, zone_col_i: u32) -> AnimatedCorpse {
    if c.spec_base().id == id {
        c.with_base(AnimatedCorpseBase { zone_row_i, zone_col_i, ..c.spec_base() })
    } else {
        c
    }
}

/// A character after a mutation that moves the character `id`.
pub open spec fn character_after_move(c: Character, id: Seq<char>, zone_row_i: u32, zone_col_i: u32) -> Character {
    if c.id@ == id {
        Character { zone_row_i, zone_col_i, ..c }
    } else {
        c
    }
}

/// The characters after a mutation that removes the first character named `id`.
pub open spec fn characters_after_removal(chars: Seq<Character>, id: Seq<char>) -> Seq<Character> {
    if exists|i: int| 0 <= i < chars.len() && chars[i].id@ == id {
        let i = choose|i: int|
            0 <= i < chars.len() && chars[i].id@ == id && forall|j: int| 0 <= j < i ==> chars[j].id@ != id;
        chars.remove(i)
    } else {
        chars
    }
}

/// What one corpse asks in reaction to an event, given the successor drawn for
/// it: the record of its own reported move, bound for this zone, then each
/// behavior of its kind in turn.
pub open spec fn spec_corpse_on_event(zone: &Zone, c: AnimatedCorpse, event: EventView, pick: Option<(u32, u32)>) -> Seq<Message> {
    let behaviors = spec_behaviors_for(c.spec_base().type_);
    spec_position_sync(c.spec_base(), event, (zone.world_row_i, zone.world_col_i)) + behaviors_on_event(
        behaviors,
        behaviors.len() as int,
        zone,
        c.spec_base(),
        event,
        pick,
    )
}

/// What one corpse asks on the tick `tick_count`, given the successor drawn for
/// it: each behavior of its kind in turn, when its cadence fires.
pub open spec fn spec_corpse_tick(zone: &Zone, c: AnimatedCorpse, tick_count: u64, pick: Option<(u32, u32)>) -> Seq<Message> {
    let behaviors = spec_behaviors_for(c.spec_base().type_);
    behaviors_on_tick(behaviors, behaviors.len() as int, zone, c.spec_base(), tick_count, pick)
}

/// The messages of the first `n` corpses of the zone reacting to an event, in order.
pub open spec fn spec_zone_on_event(zone: &Zone, event: EventView, picks: Seq<Option<(u32, u32)>>, n: int) -> Seq<Message>
    decreases n,
{
    if n <= 0 {
        seq![]
    } else {
        spec_zone_on_event(zone, event, picks, n - 1) + spec_corpse_on_event(
            zone,
            zone.animated_corpses@[n - 1],
            event,
            picks[n - 1],
        )
    }
}

/// The messages of the first `n` corpses of the zone on a tick, in order.
pub open spec fn spec_zone_animate(zone: &Zone, tick_count: u64, picks: Seq<Option<(u32, u32)>>, n: int) -> Seq<Message>
    decreases n,
{
    if n <= 0 {
        seq![]
    } else {
        spec_zone_animate(zone, tick_count, picks, n - 1) + spec_corpse_tick(
            zone,
            zone.animated_corpses@[n - 1],
            tick_count,
            picks[n - 1],
        )
    }
}

/// One possible random draw for each corpse of the zone.
pub open spec fn valid_picks(zone: &Zone, picks: Seq<Option<(u32, u32)>>) -> bool {
    &&& picks.len() == zone.animated_corpses@.len()
    &&& forall|i: int| 0 <= i < picks.len() ==> #[trigger] valid_pick(
        zone,
        zone.animated_corpses@[i].spec_base(),
        picks[i],
    )
}

/// The corpses of a zone once the moves that an event reports are recorded.
pub open spec fn corpses_after_event(corpses: Seq<AnimatedCorpse>, event: EventView) -> Seq<AnimatedCorpse> {
    match event.event_type {
        EventTypeView::AnimatedCorpseMove { to_row_i, to_col_i, animated_corpse_id } => corpses.map_values(
            |c: AnimatedCorpse| corpse_after_move(c, animated_corpse_id, to_row_i, to_col_i),
        ),
        _ => corpses,
    }
}

/// `new` is the zone `old` once `message` is applied. Adding an animated corpse
/// needs its full record, which the caller fetches and hands to
/// `add_animated_corpse`: the mutation itself leaves the zone unchanged.
pub open spec fn spec_applied(old: &Zone, new: &Zone, message: ZoneMessage) -> bool {
    &&& new.world_row_i == old.world_row_i
    &&& new.world_col_i == old.world_col_i
    &&& new.width == old.width
    &&& new.height == old.height
    &&& new.rows == old.rows
    &&& new.world_tile_type_id == old.world_tile_type_id
    &&& new.tiles == old.tiles
    &&& match message {
        ZoneMessage::UpdateAnimatedCorpsePosition(id, zone_row_i, zone_col_i) => {
            &&& new.animated_corpses@ == old.animated_corpses@.map_values(
                |c: AnimatedCorpse| corpse_after_move(c, id, zone_row_i, zone_col_i),
            )
            &&& new.characters == old.characters
            &&& new.builds == old.builds
        },
        ZoneMessage::UpdateCharacterPosition(id, zone_row_i, zone_col_i) => {
            &&& new.animated_corpses == old.animated_corpses
            &&& new.characters@ == old.characters@.map_values(
                |c: Character| character_after_move(c, id@, zone_row_i, zone_col_i),
            )
            &&& new.builds == old.builds
        },
        ZoneMessage::RemoveCharacter(id) => {
            &&& new.animated_corpses == old.animated_corpses
            &&& new.characters@ == characters_after_removal(old.characters@, id@)
            &&& new.builds == old.builds
        },
        ZoneMessage::AddCharacter(id, zone_row_i, zone_col_i) => {
            &&& new.animated_corpses == old.animated_corpses
            &&& new.characters@ == old.characters@.push(
                Character { id, zone_row_i, zone_col_i },
            )
            &&& new.builds == old.builds
        },
        ZoneMessage::AddBuild(build) => {
            &&& new.animated_corpses == old.animated_corpses
            &&& new.characters == old.characters
            &&& new.builds@ == old.builds@.push(build)
        },
        ZoneMessage::AddAnimatedCorpse(_) => {
            &&& new.animated_corpses == old.animated_corpses
            &&& new.characters == old.characters
            &&& new.builds == old.builds
        },
    }
}

/// The rows hold, cell by cell, the tile id of the grid's characters.
pub open spec fn zone_rows_match(rows: Seq<LevelRow>, ls: Seq<Seq<char>>, tiles: &ZoneTiles) -> bool {
    &&& rows.len() == ls.len()
    &&& forall|r: int| 0 <= r < ls.len() ==> (#[trigger] rows[r]).cols@.len() == ls[r].len()
    &&& forall|r: int, c: int|
        0 <= r < ls.len() && 0 <= c < ls[r].len() ==> (#[trigger] rows[r].cols@[c])@ == tiles.spec_tile_id(
            spec_char_code(ls[r][c]),
        )
}

fn level_row_of(line: &str, tiles: &ZoneTiles) -> (r: LevelRow)
    ensures
        r.cols@.len() == line@.len(),
        forall|c: int| 0 <= c < line@.len() ==> (#[trigger] r.cols@[c])@ == tiles.spec_tile_id(spec_char_code(line@[c])),
{
    let cs = chars_of(line);
    let mut cols: Vec<String> = Vec::new();
    let mut i: usize = 0;
    while i < cs.len()
        invariant
            0 <= i <= cs.len(),
            cs@ == line@,
            cols@.len() == i,
            forall|c: int| 0 <= c < i ==> (#[trigger] cols@[c])@ == tiles.spec_tile_id(spec_char_code(line@[c])),
        decreases cs.len() - i,
    {
        let ghost prev = cols@;
        cols.push(tiles.tile_id(char_code(cs[i])));
        proof {
            assert forall|c: int| 0 <= c < i + 1 implies (#[trigger] cols@[c])@ == tiles.spec_tile_id(
                spec_char_code(line@[c]),
            ) by {
                if c < i {
                    assert(cols@[c] == prev[c]);
                }
            }
        }
        i = i + 1;
    }
    LevelRow { cols }
}

impl Zone {
    /// Builds a zone from its grid text, read with the zone tile definitions.
    pub fn new(
        world_row_i: u32,
        world_col_i: u32,
        animated_corpses: Vec<AnimatedCorpse>,
        characters: Vec<Character>,
        builds: Vec<Build>,
        zone_raw: &str,
        tiles: ZoneTiles,
        world_tile_type_id: String,
    ) -> (r: Result<Self, Error>)
        ensures
            r is Ok <==> spec_longest_line(zone_raw@) is Some,
            r matches Ok(z) ==> {
                &&& z.world_row_i == world_row_i
                &&& z.world_col_i == world_col_i
                &&& z.animated_corpses == animated_corpses
                &&& z.characters == characters
                &&& z.builds == builds
                &&& z.tiles == tiles
                &&& z.world_tile_type_id == world_tile_type_id
                &&& zone_rows_match(z.rows@, spec_lines(zone_raw@), &tiles)
                &&& spec_lines(zone_raw@).len() <= i32::MAX ==> z.height == spec_lines(zone_raw@).len()
                &&& spec_longest_line(zone_raw@) matches Some(l) && (l.len() <= i32::MAX ==> z.width == l.len())
            },
    {
        let ls = lines(zone_raw);
        let height = length_as_i32(ls.len());
        let longest = match longest_line(zone_raw) {
            Some(l) => l,
            None => {
                return Err(Error::new(String::from_str("Zone raw seem to be empty")));
            },
        };
        let width = length_as_i32(chars_of(longest).len());
        let mut rows: Vec<LevelRow> = Vec::new();
        let mut i: usize = 0;
        while i < ls.len()
            invariant
                0 <= i <= ls.len(),
                views(ls@) == spec_lines(zone_raw@),
                rows@.len() == i,
                forall|r: int| 0 <= r < i ==> (#[trigger] rows@[r]).cols@.len() == ls@[r]@.len(),
                forall|r: int, c: int|
                    0 <= r < i && 0 <= c < ls@[r]@.len() ==> (#[trigger] rows@[r].cols@[c])@ == tiles.spec_tile_id(
                        spec_char_code(ls@[r]@[c]),
                    ),
            decreases ls.len() - i,
        {
            let ghost prev = rows@;
            rows.push(level_row_of(ls[i], &tiles));
            proof {
                assert forall|r: int, c: int|
                    0 <= r < i + 1 && 0 <= c < ls@[r]@.len() implies (#[trigger] rows@[r].cols@[c])@ == tiles.spec_tile_id(
                    spec_char_code(ls@[r]@[c]),
                ) by {
                    if r < i {
                        assert(rows@[r] == prev[r]);
                    }
                }
                assert forall|r: int| 0 <= r < i + 1 implies (#[trigger] rows@[r]).cols@.len() == ls@[r]@.len() by {
                    if r < i {
                        assert(rows@[r] == prev[r]);
                    }
                }
            }
            i = i + 1;
        }
        proof {
            assert forall|r: int, c: int|
                0 <= r < spec_lines(zone_raw@).len() && 0 <= c < spec_lines(zone_raw@)[r].len() implies (
            #[trigger] rows@[r].cols@[c])@ == tiles.spec_tile_id(spec_char_code(spec_lines(zone_raw@)[r][c])) by {
                assert(views(ls@)[r] == ls@[r]@);
            }
            assert forall|r: int| 0 <= r < spec_lines(zone_raw@).len() implies (#[trigger] rows@[r]).cols@.len()
                == spec_lines(zone_raw@)[r].len() by {
                assert(views(ls@)[r] == ls@[r]@);
            }
        }
        Ok(Zone {
            world_row_i,
            world_col_i,
            animated_corpses,
            characters,
            builds,
            width,
            height,
            rows,
            world_tile_type_id,
            tiles,
        })
    }

    /// Whether a walker may stand on (`row_i`, `col_i`).
    pub open spec fn spec_traversable(&self, row_i: int, col_i: int) -> bool {
        self.tiles.spec_browseable(spec_tile_at(self.rows@, row_i, col_i))
    }

    pub fn tile_id(&self, row_i: u32, col_i: u32) -> (r: TileId)
        ensures
            r@ == spec_tile_at(self.rows@, row_i as int, col_i as int),
    {
        if row_i as usize >= self.rows.len() {
            return String::from_str(NOTHING);
        }
        let row = &self.rows[row_i as usize];
        if col_i as usize >= row.cols.len() {
            return String::from_str(NOTHING);
        }
        row.cols[col_i as usize].clone()
    }

    fn push_successor(&self, successors: &mut Vec<((u32, u32), u32)>, row_i: i64, col_i: i64)
        ensures
            final(successors)@ == old(successors)@ + successor_at(self, row_i as int, col_i as int),
    {
        if 0 <= row_i && row_i <= u32::MAX as i64 && 0 <= col_i && col_i <= u32::MAX as i64 {
            let tile_id = self.tile_id(row_i as u32, col_i as u32);
            if self.tiles.browseable(tile_id.as_str()) {
                successors.push(((row_i as u32, col_i as u32), 1));
                proof {
                    assert(successors@ =~= old(successors)@ + successor_at(self, row_i as int, col_i as int));
                }
                return;
            }
        }
        proof {
            assert(successors@ =~= old(successors)@ + successor_at(self, row_i as int, col_i as int));
        }
    }

    /// The walkable Moore neighbors of (`row_i`, `col_i`), each with weight 1.
    pub fn get_successors(&self, row_i: u32, col_i: u32) -> (r: Vec<((u32, u32), u32)>)
        ensures
            r@ == spec_successors(self, row_i, col_i),
            forall|i: int| 0 <= i < r@.len() ==> {
                &&& is_moore_neighbor(#[trigger] r@[i].0, (row_i, col_i))
                &&& self.spec_traversable(r@[i].0.0 as int, r@[i].0.1 as int)
                &&& r@[i].1 == 1
            },
    {
        let mut successors: Vec<((u32, u32), u32)> = Vec::new();
        let r = row_i as i64;
        let c = col_i as i64;
        self.push_successor(&mut successors, r - 1, c - 1);
        self.push_successor(&mut successors, r - 1, c);
        self.push_successor(&mut successors, r - 1, c + 1);
        self.push_successor(&mut successors, r, c - 1);
        self.push_successor(&mut successors, r, c + 1);
        self.push_successor(&mut successors, r + 1, c + 1);
        self.push_successor(&mut successors, r + 1, c - 1);
        self.push_successor(&mut successors, r + 1, c);
        successors
    }

    /// Applies one mutation to the zone's mirror.
    pub fn on_message(&mut self, message: ZoneMessage)
        ensures
            spec_applied(old(self), final(self), message),
    {
        match message {
            ZoneMessage::UpdateAnimatedCorpsePosition(id, zone_row_i, zone_col_i) => {
                let mut i: usize = 0;
                while i < self.animated_corpses.len()
                    invariant
                        0 <= i <= self.animated_corpses.len(),
                        self.animated_corpses.len() == old(self).animated_corpses.len(),
                        forall|j: int| 0 <= j < i ==> #[trigger] self.animated_corpses@[j] == corpse_after_move(
                            old(self).animated_corpses@[j], id, zone_row_i, zone_col_i),
                        forall|j: int| i <= j < self.animated_corpses.len() ==> #[trigger] self.animated_corpses@[j]
                            == old(self).animated_corpses@[j],
                        self.world_row_i == old(self).world_row_i,
                        self.world_col_i == old(self).world_col_i,
                        self.width == old(self).width,
                        self.height == old(self).height,
                        self.rows == old(self).rows,
                        self.world_tile_type_id == old(self).world_tile_type_id,
                        self.tiles == old(self).tiles,
                        self.characters == old(self).characters,
                        self.builds == old(self).builds,
                    decreases self.animated_corpses.len() - i,
                {
                    if self.animated_corpses[i].id() == id {
                        self.animated_corpses[i].set_zone_row_i(zone_row_i);
                        self.animated_corpses[i].set_zone_col_i(zone_col_i);
                    }
                    i = i + 1;
                }
                proof {
                    assert(self.animated_corpses@ =~= old(self).animated_corpses@.map_values(
                        |c: AnimatedCorpse| corpse_after_move(c, id, zone_row_i, zone_col_i),
                    ));
                }
            },
            ZoneMessage::UpdateCharacterPosition(id, zone_row_i, zone_col_i) => {
                let mut i: usize = 0;
                while i < self.characters.len()
                    invariant
                        0 <= i <= self.characters.len(),
                        self.characters.len() == old(self).characters.len(),
                        forall|j: int| 0 <= j < i ==> #[trigger] self.characters@[j] == character_after_move(
                            old(self).characters@[j], id@, zone_row_i, zone_col_i),
                        forall|j: int| i <= j < self.characters.len() ==> #[trigger] self.characters@[j]
                            == old(self).characters@[j],
                        self.world_row_i == old(self).world_row_i,
                        self.world_col_i == old(self).world_col_i,
                        self.width == old(self).width,
                        self.height == old(self).height,
                        self.rows == old(self).rows,
                        self.world_tile_type_id == old(self).world_tile_type_id,
                        self.tiles == old(self).tiles,
                        self.animated_corpses == old(self).animated_corpses,
                        self.builds == old(self).builds,
                    decreases self.characters.len() - i,
                {
                    if self.characters[i].id == id {
                        self.characters[i].zone_row_i = zone_row_i;
                        self.characters[i].zone_col_i = zone_col_i;
                    }
                    i = i + 1;
                }
                proof {
                    assert(self.characters@ =~= old(self).characters@.map_values(
                        |c: Character| character_after_move(c, id@, zone_row_i, zone_col_i),
                    ));
                }
            },
            ZoneMessage::RemoveCharacter(id) => {
                let mut i: usize = 0;
                while i < self.characters.len()
                    invariant
                        0 <= i <= self.characters.len(),
                        self.characters == old(self).characters,
                        forall|j: int| 0 <= j < i ==> #[trigger] self.characters@[j].id@ != id@,
                    ensures
                        0 <= i <= self.characters.len(),
                        self.characters == old(self).characters,
                        forall|j: int| 0 <= j < i ==> #[trigger] self.characters@[j].id@ != id@,
                        i < self.characters.len() ==> self.characters@[i as int].id@ == id@,
                    decreases self.characters.len() - i,
                {
                    if self.characters[i].id == id {
                        break;
                    }
                    i = i + 1;
                }
                if i < self.characters.len() {
                    proof {
                        let chars = old(self).characters@;
                        let k = choose|k: int|
                            0 <= k < chars.len() && chars[k].id@ == id@ && forall|j: int|
                                0 <= j < k ==> chars[j].id@ != id@;
                        assert(0 <= i < chars.len() && chars[i as int].id@ == id@);
                        if k < i {
                            assert(chars[k].id@ != id@);
                        }
                        if i < k {
                            assert(chars[i as int].id@ != id@);
                        }
                        assert(k == i);
                    }
                    self.characters.remove(i);
                }
            },
            ZoneMessage::AddCharacter(id, zone_row_i, zone_col_i) => {
                self.characters.push(Character { id, zone_row_i, zone_col_i });
            },
            ZoneMessage::AddBuild(build) => {
                self.builds.push(build);
            },
            ZoneMessage::AddAnimatedCorpse(_) => {},
        }
    }

    /// Draws, for each corpse, a random successor of its position.
    pub fn draw_picks(&self) -> (r: Vec<Option<(u32, u32)>>)
        ensures
            valid_picks(self, r@),
    {
        let mut picks: Vec<Option<(u32, u32)>> = Vec::new();
        let mut i: usize = 0;
        while i < self.animated_corpses.len()
            invariant
                0 <= i <= self.animated_corpses.len(),
                picks@.len() == i,
                forall|j: int| 0 <= j < i ==> #[trigger] valid_pick(
                    self,
                    self.animated_corpses@[j].spec_base(),
                    picks@[j],
                ),
            decreases self.animated_corpses.len() - i,
        {
            let pick = draw_successor(self, self.animated_corpses[i].base());
            picks.push(pick);
            i = i + 1;
        }
        picks
    }

    /// Reaction of every corpse to an event, given the successor drawn for each.
    pub fn on_event_with(&self, event: &ZoneEvent, picks: &Vec<Option<(u32, u32)>>) -> (r: Vec<Message>)
        requires
            picks@.len() == self.animated_corpses@.len(),
        ensures
            r@ == spec_zone_on_event(self, event@, picks@, self.animated_corpses@.len() as int),
    {
        let mut messages: Vec<Message> = Vec::new();
        let mut i: usize = 0;
        while i < self.animated_corpses.len()
            invariant
                0 <= i <= self.animated_corpses.len(),
                picks@.len() == self.animated_corpses@.len(),
                messages@ == spec_zone_on_event(self, event@, picks@, i as int),
            decreases self.animated_corpses.len() - i,
        {
            let animated_corpse = &self.animated_corpses[i];
            let pick = picks[i];
            let mut corpse_messages = animated_corpse.sync_position(event, (self.world_row_i, self.world_col_i));
            let mut own = animated_corpse.on_event(event);
            corpse_messages.append(&mut own);
            let behaviors = get_behaviors_for(animated_corpse);
            let ghost start = corpse_messages@;
            let mut j: usize = 0;
            while j < behaviors.len()
                invariant
                    0 <= j <= behaviors.len(),
                    behaviors@ == spec_behaviors_for(animated_corpse.spec_base().type_),
                    corpse_messages@ == start + behaviors_on_event(
                        behaviors@,
                        j as int,
                        self,
                        animated_corpse.spec_base(),
                        event@,
                        pick,
                    ),
                decreases behaviors.len() - j,
            {
                let mut reaction = behaviors[j].on_event_with(animated_corpse, event, self, pick);
                corpse_messages.append(&mut reaction);
                j = j + 1;
                proof {
                    assert(corpse_messages@ =~= start + behaviors_on_event(
                        behaviors@,
                        j as int,
                        self,
                        animated_corpse.spec_base(),
                        event@,
                        pick,
                    ));
                }
            }
            proof {
                assert(start =~= spec_position_sync(
                    animated_corpse.spec_base(),
                    event@,
                    (self.world_row_i, self.world_col_i),
                ));
                assert(corpse_messages@ =~= spec_corpse_on_event(self, *animated_corpse, event@, pick));
            }
            messages.append(&mut corpse_messages);
            i = i + 1;
        }
        messages
    }

    /// Reaction of every corpse to an event, in corpse order and, for each corpse,
    /// in behavior order; a move the event reports of a corpse is recorded.
    pub fn on_event(&mut self, event: &ZoneEvent) -> (r: Vec<Message>)
        ensures
            exists|picks: Seq<Option<(u32, u32)>>|
                valid_picks(old(self), picks) && r@ == spec_zone_on_event(
                    old(self),
                    event@,
                    picks,
                    old(self).animated_corpses@.len() as int,
                ),
            final(self).animated_corpses@ == corpses_after_event(old(self).animated_corpses@, event@),
            final(self).characters == old(self).characters,
            final(self).builds == old(self).builds,
            final(self).rows == old(self).rows,
            final(self).tiles == old(self).tiles,
            final(self).world_row_i == old(self).world_row_i,
            final(self).world_col_i == old(self).world_col_i,
            final(self).width == old(self).width,
            final(self).height == old(self).height,
            final(self).world_tile_type_id == old(self).world_tile_type_id,
    {
        let picks = self.draw_picks();
        let messages = self.on_event_with(event, &picks);
        match &event.event_type {
            ZoneEventType::AnimatedCorpseMove { to_row_i, to_col_i, animated_corpse_id } => {
                self.on_message(ZoneMessage::UpdateAnimatedCorpsePosition(*animated_corpse_id, *to_row_i, *to_col_i));
            },
            _ => {},
        }
        messages
    }

    /// Tick reaction of every corpse, given the successor drawn for each.
    pub fn animate_with(&self, tick_count: u64, picks: &Vec<Option<(u32, u32)>>) -> (r: Vec<Message>)
        requires
            picks@.len() == self.animated_corpses@.len(),
        ensures
            r@ == spec_zone_animate(self, tick_count, picks@, self.animated_corpses@.len() as int),
    {
        let mut messages: Vec<Message> = Vec::new();
        let mut i: usize = 0;
        while i < self.animated_corpses.len()
            invariant
                0 <= i <= self.animated_corpses.len(),
                picks@.len() == self.animated_corpses@.len(),
                messages@ == spec_zone_animate(self, tick_count, picks@, i as int),
            decreases self.animated_corpses.len() - i,
        {
            let animated_corpse = &self.animated_corpses[i];
            let pick = picks[i];
            let mut corpse_messages = animated_corpse.animate(tick_count);
            let behaviors = get_behaviors_for(animated_corpse);
            let mut j: usize = 0;
            while j < behaviors.len()
                invariant
                    0 <= j <= behaviors.len(),
                    behaviors@ == spec_behaviors_for(animated_corpse.spec_base().type_),
                    corpse_messages@ == behaviors_on_tick(
                        behaviors@,
                        j as int,
                        self,
                        animated_corpse.spec_base(),
                        tick_count,
                        pick,
                    ),
                decreases behaviors.len() - j,
            {
                if let Some(animate_each) = behaviors[j].animate_each() {
                    if animate_each > 0 && tick_count % animate_each as u64 == 0 {
                        let mut reaction = behaviors[j].on_animate_with(animated_corpse, self, pick);
                        corpse_messages.append(&mut reaction);
                    }
                }
                j = j + 1;
                proof {
                    assert(corpse_messages@ =~= behaviors_on_tick(
                        behaviors@,
                        j as int,
                        self,
                        animated_corpse.spec_base(),
                        tick_count,
                        pick,
                    ));
                }
            }
            messages.append(&mut corpse_messages);
            i = i + 1;
        }
        messages
    }

    /// Tick reaction of every corpse: each behavior whose cadence divides
    /// `tick_count` reacts, in corpse order and behavior order.
    pub fn animate(&self, tick_count: u64) -> (r: Vec<Message>)
        ensures
            exists|picks: Seq<Option<(u32, u32)>>|
                valid_picks(self, picks) && r@ == spec_zone_animate(
                    self,
                    tick_count,
                    picks,
                    self.animated_corpses@.len() as int,
                ),
    {
        let picks = self.draw_picks();
        self.animate_with(tick_count, &picks)
    }

    /// Places a newly reported animated corpse in the zone.
    pub fn add_animated_corpse(&mut self, animated_corpse: AnimatedCorpse)
        ensures
            final(self).animated_corpses@ == old(self).animated_corpses@.push(animated_corpse),
            final(self).characters == old(self).characters,
            final(self).builds == old(self).builds,
            final(self).rows == old(self).rows,
            final(self).tiles == old(self).tiles,
            final(self).world_row_i == old(self).world_row_i,
            final(self).world_col_i == old(self).world_col_i,
    {
        self.animated_corpses.push(animated_corpse);
    }
}

/// Builds the zone at (`world_row_i`, `world_col_i`) of the world from what the
/// world server gave: its animated corpses, the tile definitions, the zone's
/// source text (whose `GEO` block is its grid), its characters and its builds.
pub fn new(
    world: &World,
    world_row_i: u32,
    world_col_i: u32,
    animated_corpses: Vec<AnimatedCorpse>,
    tiles_data: JsonValue,
    zone_source: &str,
    characters: Vec<Character>,
    builds: Vec<Build>,
) -> (r: Result<Zone, Error>)
    ensures
        r is Ok <==> {
            &&& world_row_i < world.rows@.len()
            &&& world_col_i < world.rows@[world_row_i as int].cols@.len()
            &&& tiles_data matches JsonValue::Array(es) && zone_tiles_prefix(es@, es@.len() as int) is Some
            &&& spec_extract_block(BLOCK_GEO@, zone_source@) matches Some(geo) && spec_longest_line(geo) is Some
        },
        r matches Ok(z) ==> {
            &&& z.world_tile_type_id@ == world.rows@[world_row_i as int].cols@[world_col_i as int]@
            &&& z.world_row_i == world_row_i
            &&& z.world_col_i == world_col_i
            &&& z.animated_corpses == animated_corpses
            &&& z.characters == characters
            &&& z.builds == builds
            &&& tiles_data matches JsonValue::Array(es) && zone_tiles_prefix(es@, es@.len() as int) matches Some(
                tables,
            ) && tiles_match(&z.tiles, tables.0, tables.1)
            &&& spec_extract_block(BLOCK_GEO@, zone_source@) matches Some(geo) && zone_rows_match(
                z.rows@,
                spec_lines(geo),
                &z.tiles,
            )
        },
{
    if world_row_i as usize >= world.rows.len() || world_col_i as usize >= world.rows[world_row_i as usize].cols.len() {
        return Err(Error::new(String::from_str("No such zone in the world")));
    }
    let world_tile_type_id = world.rows[world_row_i as usize].cols[world_col_i as usize].clone();
    let zone_tiles = ZoneTiles::new(tiles_data)?;
    let zone_raw = match extract_block_from_source(BLOCK_GEO, zone_source) {
        Ok(raw) => raw,
        Err(message) => {
            return Err(Error::new(message));
        },
    };
    Zone::new(
        world_row_i,
        world_col_i,
        animated_corpses,
        characters,
        builds,
        zone_raw.as_str(),
        zone_tiles,
        world_tile_type_id,
    )
}

} // verus!
