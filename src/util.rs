use vstd::prelude::*;

use crate::text::{chars_of, join_lines, joined, lines, spec_lines, trim_end, trimmed_end, views};

verus! {

/// A compass direction on the tile grid (rows grow southward, columns eastward).
#[derive(Clone, Copy, Debug, PartialEq, Eq, Structural)]
pub enum Direction {
    North,
    NorthEst,
    Est,
    SouthEst,
    South,
    SouthWest,
    West,
    NorthWest,
}

/// The unit (row, col) offset of a direction.
pub open spec fn spec_direction_modifier(direction: Direction) -> (int, int) {
    match direction {
        Direction::North => (-1, 0),
        Direction::NorthEst => (-1, 1),
        Direction::Est => (0, 1),
        Direction::SouthEst => (1, 1),
        Direction::South => (1, 0),
        Direction::SouthWest => (1, -1),
        Direction::West => (0, -1),
        Direction::NorthWest => (-1, -1),
    }
}

/// The direction pointing the other way.
pub open spec fn spec_opposite_direction(direction: Direction) -> Direction {
    match direction {
        Direction::North => Direction::South,
        Direction::NorthEst => Direction::SouthWest,
        Direction::Est => Direction::West,
        Direction::SouthEst => Direction::NorthWest,
        Direction::South => Direction::North,
        Direction::SouthWest => Direction::NorthEst,
        Direction::West => Direction::Est,
        Direction::NorthWest => Direction::SouthEst,
    }
}

/// Classification of a (row, col) offset into a direction, over the window
/// [-2, 2] x [-2, 2]; the center and every offset outside the window have none.
pub open spec fn direction_of_offset(dr: int, dc: int) -> Option<Direction> {
    if dr < -2 || dr > 2 || dc < -2 || dc > 2 || (dr == 0 && dc == 0) {
        None
    } else if dr == -2 {
        Some(Direction::North)
    } else if dr == 2 {
        Some(Direction::South)
    } else if dc == -2 {
        Some(Direction::West)
    } else if dc == 2 {
        Some(Direction::Est)
    } else if dr == -1 {
        Some(Direction::North)
    } else if dr == 1 {
        Some(Direction::South)
    } else if dc == -1 {
        Some(Direction::West)
    } else {
        Some(Direction::Est)
    }
}

/// Direction of `position` seen from `reference`.
pub open spec fn spec_position_direction_from(reference: (u32, u32), position: (u32, u32)) -> Option<Direction> {
    direction_of_offset(position.0 - reference.0, position.1 - reference.1)
}

/// Distance between two coordinates along one axis.
pub open spec fn axis_distance(a: u32, b: u32) -> int {
    if a >= b { a - b } else { b - a }
}

/// Chebyshev proximity: both axis distances are at most `distance`.
pub open spec fn spec_is_near(position1: (u32, u32), position2: (u32, u32), distance: u32) -> bool {
    axis_distance(position1.0, position2.0) <= distance
        && axis_distance(position1.1, position2.1) <= distance
}

pub fn direction_modifier(direction: Direction) -> (r: (i8, i8))
    ensures
        (r.0 as int, r.1 as int) == spec_direction_modifier(direction),
{
    match direction {
        Direction::North => (-1, 0),
        Direction::NorthEst => (-1, 1),
        Direction::Est => (0, 1),
        Direction::SouthEst => (1, 1),
        Direction::South => (1, 0),
        Direction::SouthWest => (1, -1),
        Direction::West => (0, -1),
        Direction::NorthWest => (-1, -1),
    }
}

pub fn opposite_direction(direction: Direction) -> (r: Direction)
    ensures
        r == spec_opposite_direction(direction),
{
    match direction {
        Direction::North => Direction::South,
        Direction::NorthEst => Direction::SouthWest,
        Direction::Est => Direction::West,
        Direction::SouthEst => Direction::NorthWest,
        Direction::South => Direction::North,
        Direction::SouthWest => Direction::NorthEst,
        Direction::West => Direction::Est,
        Direction::NorthWest => Direction::SouthEst,
    }
}

pub fn position_direction_from(reference: (u32, u32), position: (u32, u32)) -> (r: Option<Direction>)
    ensures
        r == spec_position_direction_from(reference, position),
{
    let row_modifier: i64 = position.0 as i64 - reference.0 as i64;
    let col_modifier: i64 = position.1 as i64 - reference.1 as i64;

    match (row_modifier, col_modifier) {
        (-2, -2) => Some(Direction::North),
        (-2, -1) => Some(Direction::North),
        (-2, 0) => Some(Direction::North),
        (-2, 1) => Some(Direction::North),
        (-2, 2) => Some(Direction::North),

        (-1, -2) => Some(Direction::West),
        (-1, -1) => Some(Direction::North),
        (-1, 0) => Some(Direction::North),
        (-1, 1) => Some(Direction::North),
        (-1, 2) => Some(Direction::Est),

        (0, -2) => Some(Direction::West),
        (0, -1) => Some(Direction::West),
        (0, 0) => None,
        (0, 1) => Some(Direction::Est),
        (0, 2) => Some(Direction::Est),

        (1, -2) => Some(Direction::West),
        (1, -1) => Some(Direction::South),
        (1, 0) => Some(Direction::South),
        (1, 1) => Some(Direction::South),
        (1, 2) => Some(Direction::Est),

        (2, -2) => Some(Direction::South),
        (2, -1) => Some(Direction::South),
        (2, 0) => Some(Direction::South),
        (2, 1) => Some(Direction::South),
        (2, 2) => Some(Direction::South),

        (_, _) => None,
    }
}

pub fn is_near(position1: (u32, u32), position2: (u32, u32), distance: u32) -> (r: bool)
    ensures
        r == spec_is_near(position1, position2, distance),
{
    let row_distance: u32 = if position1.0 >= position2.0 {
        position1.0 - position2.0
    } else {
        position2.0 - position1.0
    };
    let col_distance: u32 = if position1.1 >= position2.1 {
        position1.1 - position2.1
    } else {
        position2.1 - position1.1
    };
    row_distance <= distance && col_distance <= distance
}

/// Name of the block of a source that holds its tile grid.
pub const BLOCK_GEO: &'static str = "GEO";

/// The length in bytes of the UTF-8 encoding of `t`.
pub open spec fn byte_len(t: Seq<char>) -> int {
    vstd::utf8::encode_utf8(t).len() as int
}

/// The longest of the first `n` lines once trailing white space is removed, with
/// its length in bytes; the first of equally long ones, and none when all are
/// empty.
pub open spec fn longest_prefix(ls: Seq<Seq<char>>, n: int) -> (int, Option<Seq<char>>)
    decreases n,
{
    if n <= 0 {
        (0, None)
    } else {
        let prev = longest_prefix(ls, n - 1);
        let t = trimmed_end(ls[n - 1]);
        if byte_len(t) > prev.0 {
            (byte_len(t), Some(t))
        } else {
            prev
        }
    }
}

/// The longest line of `text`, without its trailing white space.
pub open spec fn spec_longest_line(text: Seq<char>) -> Option<Seq<char>> {
    longest_prefix(spec_lines(text), spec_lines(text).len() as int).1
}

/// The longest line of `text` in bytes, without its trailing white space; none
/// when every line is blank.
pub fn longest_line<'a>(text: &'a str) -> (r: Option<&'a str>)
    ensures
        match r {
            Some(l) => spec_longest_line(text@) == Some(l@),
            None => spec_longest_line(text@) is None,
        },
{
    let ls = lines(text);
    let mut max_length: usize = 0;
    let mut longest: Option<&'a str> = None;
    let mut i: usize = 0;
    while i < ls.len()
        invariant
            0 <= i <= ls.len(),
            views(ls@) == spec_lines(text@),
            longest_prefix(views(ls@), i as int).0 == max_length as int,
            match longest {
                Some(l) => longest_prefix(views(ls@), i as int).1 == Some(l@),
                None => longest_prefix(views(ls@), i as int).1 is None,
            },
        decreases ls.len() - i,
    {
        let contents = trim_end(ls[i]);
        let line_length = contents.as_bytes().len();
        if line_length > max_length {
            max_length = line_length;
            longest = Some(contents);
        }
        i = i + 1;
    }
    longest
}

/// The line opens a block: it starts with `::`.
pub open spec fn is_block_header(line: Seq<char>) -> bool {
    line.len() >= 2 && line[0] == ':' && line[1] == ':'
}

/// `t` with every `::` removed, scanning from the left.
pub open spec fn without_double_colons(t: Seq<char>) -> Seq<char>
    decreases t.len(),
{
    if t.len() == 0 {
        seq![]
    } else if t.len() >= 2 && t[0] == ':' && t[1] == ':' {
        without_double_colons(t.subrange(2, t.len() as int))
    } else {
        seq![t[0]] + without_double_colons(t.subrange(1, t.len() as int))
    }
}

/// The name of the block a header line opens: the line without `::`, line feeds and spaces.
pub open spec fn header_name(line: Seq<char>) -> Seq<char> {
    without_double_colons(line).filter(|c: char| c != '\n').filter(|c: char| c != ' ')
}

/// Index of the first header, from `k` on, that opens the block `name`.
pub open spec fn find_header(ls: Seq<Seq<char>>, name: Seq<char>, k: int) -> Option<int>
    decreases ls.len() - k,
{
    if k < 0 || k >= ls.len() {
        None
    } else if is_block_header(ls[k]) && header_name(ls[k]) == name {
        Some(k)
    } else {
        find_header(ls, name, k + 1)
    }
}

/// The lines of the block `name` from line `k` on: up to the next header of
/// another block; headers of the same block are skipped.
pub open spec fn block_body(ls: Seq<Seq<char>>, name: Seq<char>, k: int) -> Seq<Seq<char>>
    decreases ls.len() - k,
{
    if k < 0 || k >= ls.len() {
        seq![]
    } else if is_block_header(ls[k]) {
        if header_name(ls[k]) == name {
            block_body(ls, name, k + 1)
        } else {
            seq![]
        }
    } else {
        seq![ls[k]] + block_body(ls, name, k + 1)
    }
}

/// The text of the block `name` of a source, if the source has that block.
pub open spec fn spec_extract_block(name: Seq<char>, source: Seq<char>) -> Option<Seq<char>> {
    let ls = spec_lines(source);
    match find_header(ls, name, 0) {
        Some(h) => Some(joined(block_body(ls, name, h + 1))),
        None => None,
    }
}

/// The header name of `line`, as characters.
fn header_name_of(line: &str) -> (r: Vec<char>)
    ensures
        r@ == header_name(line@),
{
    let cs = chars_of(line);
    let mut kept: Vec<char> = Vec::new();
    let mut i: usize = 0;
    proof {
        assert(cs@.subrange(0, cs@.len() as int) =~= line@);
        assert(kept@ + without_double_colons(line@) =~= without_double_colons(line@));
    }
    while i < cs.len()
        invariant
            0 <= i <= cs.len(),
            cs@ == line@,
            kept@ + without_double_colons(cs@.subrange(i as int, cs@.len() as int)) == without_double_colons(line@),
        decreases cs.len() - i,
    {
        let ghost rest = cs@.subrange(i as int, cs@.len() as int);
        if i + 1 < cs.len() && cs[i] == ':' && cs[i + 1] == ':' {
            proof {
                assert(rest.subrange(2, rest.len() as int) =~= cs@.subrange(i + 2, cs@.len() as int));
            }
            i = i + 2;
        } else {
            proof {
                assert(rest.subrange(1, rest.len() as int) =~= cs@.subrange(i + 1, cs@.len() as int));
                assert(kept@.push(cs@[i as int]) + without_double_colons(cs@.subrange(i + 1, cs@.len() as int))
                    =~= kept@ + without_double_colons(rest));
            }
            kept.push(cs[i]);
            i = i + 1;
        }
    }
    proof {
        assert(kept@ + without_double_colons(cs@.subrange(i as int, cs@.len() as int)) =~= kept@);
    }
    let mut name: Vec<char> = Vec::new();
    let mut j: usize = 0;
    while j < kept.len()
        invariant
            0 <= j <= kept.len(),
            kept@ == without_double_colons(line@),
            name@ == kept@.subrange(0, j as int).filter(|c: char| c != '\n').filter(|c: char| c != ' '),
        decreases kept.len() - j,
    {
        proof {
            let p = kept@.subrange(0, j + 1);
            assert(p.drop_last() =~= kept@.subrange(0, j as int));
            kept@.subrange(0, j as int).lemma_filter_push(kept@[j as int], |c: char| c != '\n');
            assert(kept@.subrange(0, j as int).push(kept@[j as int]) =~= p);
            let f1 = kept@.subrange(0, j as int).filter(|c: char| c != '\n');
            if kept@[j as int] != '\n' {
                f1.lemma_filter_push(kept@[j as int], |c: char| c != ' ');
            }
        }
        if kept[j] != '\n' && kept[j] != ' ' {
            name.push(kept[j]);
        }
        j = j + 1;
    }
    proof {
        assert(kept@.subrange(0, j as int) =~= kept@);
    }
    name
}

fn same_chars(a: &Vec<char>, b: &Vec<char>) -> (r: bool)
    ensures
        r == (a@ == b@),
{
    if a.len() != b.len() {
        return false;
    }
    let mut i: usize = 0;
    while i < a.len()
        invariant
            0 <= i <= a.len(),
            a.len() == b.len(),
            forall|j: int| 0 <= j < i ==> a@[j] == b@[j],
        decreases a.len() - i,
    {
        if a[i] != b[i] {
            return false;
        }
        i = i + 1;
    }
    proof {
        assert(a@ =~= b@);
    }
    true
}

fn is_header_line(line: &str) -> (r: bool)
    ensures
        r == is_block_header(line@),
{
    let cs = chars_of(line);
    cs.len() >= 2 && cs[0] == ':' && cs[1] == ':'
}

/// The text of the block `block_name` of a source: the lines after its header
/// line `::block_name`, up to the header of another block, joined with `\n`.
pub fn extract_block_from_source(block_name: &str, source: &str) -> (r: Result<String, String>)
    ensures
        match r {
            Ok(text) => spec_extract_block(block_name@, source@) == Some(text@),
            Err(message) => spec_extract_block(block_name@, source@) is None && message@ == "Block \""@
                + block_name@ + "\" not found"@,
        },
{
    let ls = lines(source);
    let name = chars_of(block_name);
    let mut h: usize = 0;
    let mut found = false;
    while h < ls.len()
        invariant_except_break
            !found,
        invariant
            0 <= h <= ls.len(),
            views(ls@) == spec_lines(source@),
            name@ == block_name@,
            find_header(views(ls@), name@, 0) == find_header(views(ls@), name@, h as int),
        ensures
            found ==> h < ls.len() && find_header(views(ls@), name@, 0) == Some(h as int),
            !found ==> find_header(views(ls@), name@, 0) is None,
        decreases ls.len() - h,
    {
        if is_header_line(ls[h]) && same_chars(&header_name_of(ls[h]), &name) {
            found = true;
            break;
        }
        h = h + 1;
    }
    if !found {
        return Err(String::from_str("Block \"").concat(block_name).concat("\" not found"));
    }
    let mut body: Vec<&str> = Vec::new();
    let mut k: usize = h + 1;
    let mut open = true;
    while k < ls.len() && open
        invariant
            h < k <= ls.len(),
            views(ls@) == spec_lines(source@),
            name@ == block_name@,
            open ==> views(body@) + block_body(views(ls@), name@, k as int) == block_body(views(ls@), name@, h + 1),
            !open ==> views(body@) == block_body(views(ls@), name@, h + 1),
        decreases ls.len() - k,
    {
        if is_header_line(ls[k]) {
            if !same_chars(&header_name_of(ls[k]), &name) {
                open = false;
                proof {
                    assert(views(body@) + seq![] =~= views(body@));
                }
            }
        } else {
            proof {
                assert(views(body@.push(ls[k as int])) + block_body(views(ls@), name@, k + 1) =~= views(body@) + (seq![ls[k as int]@] + block_body(views(ls@), name@, k + 1)));
            }
            body.push(ls[k]);
        }
        k = k + 1;
    }
    proof {
        if open {
            assert(views(body@) + block_body(views(ls@), name@, k as int) =~= views(body@));
        }
    }
    Ok(join_lines(&body))
}

} // verus!
