//! Reading the map text: one character per cell, one line per row.
use vstd::prelude::*;
use crate::geometry::Tile;
use crate::things::{Thing, ThingKind};
use crate::world::{TileKind, World, in_grid};

verus! {

/// Why a map text could not be read.
#[derive(Clone, Copy, Debug, PartialEq, Eq, Structural)]
pub enum MapError {
    /// The grid has more cells than memory can index.
    TooLarge,
}

/// The tile a map character stands for.
pub open spec fn tile_of_char(c: char) -> TileKind {
    if c == 'x' {
        TileKind::Wall
    } else if c == '0' {
        TileKind::BrittleWall
    } else {
        TileKind::Empty
    }
}

/// The entity a map character places, if any.
pub open spec fn spawn_of_char(c: char) -> Option<ThingKind> {
    if c == 'b' {
        Some(ThingKind::Bush)
    } else if c == 'p' {
        Some(ThingKind::Diamond)
    } else if c == 'k' {
        Some(ThingKind::Key)
    } else if c == 'd' {
        Some(ThingKind::Door)
    } else if c == '+' {
        Some(ThingKind::Life)
    } else if c == '*' {
        Some(ThingKind::SavePoint)
    } else if c == '@' {
        Some(ThingKind::Stone)
    } else {
        None
    }
}

/// A line without the carriage return that ends a CRLF line break.
pub open spec fn strip_cr(l: Seq<char>) -> Seq<char> {
    if l.len() > 0 && l.last() == '\r' {
        l.drop_last()
    } else {
        l
    }
}

/// The finished lines of `s` and the unfinished line after the last
/// newline.
pub open spec fn scan(s: Seq<char>) -> (Seq<Seq<char>>, Seq<char>)
    decreases s.len(),
{
    if s.len() == 0 {
        (seq![], seq![])
    } else {
        let (rows, cur) = scan(s.drop_last());
        if s.last() == '\n' {
            (rows.push(strip_cr(cur)), seq![])
        } else {
            (rows, cur.push(s.last()))
        }
    }
}

/// The lines of `s`: split at each newline, a CRLF break counting as one,
/// with no empty line after a final newline.
pub open spec fn lines_of(s: Seq<char>) -> Seq<Seq<char>> {
    let (rows, cur) = scan(s);
    if cur.len() == 0 {
        rows
    } else {
        rows.push(cur)
    }
}

/// The length of the longest line.
pub open spec fn widest(lines: Seq<Seq<char>>) -> nat
    decreases lines.len(),
{
    if lines.len() == 0 {
        0
    } else {
        let w = widest(lines.drop_last());
        if lines.last().len() > w {
            lines.last().len()
        } else {
            w
        }
    }
}

/// The tile at `(x, y)` of a map given by its lines; cells past the end of a
/// short line are empty.
pub open spec fn map_tile(lines: Seq<Seq<char>>, x: int, y: int) -> TileKind {
    if 0 <= y < lines.len() && 0 <= x < lines[y].len() {
        tile_of_char(lines[y][x])
    } else {
        TileKind::Empty
    }
}

/// The entities placed by one line, left to right.
pub open spec fn row_spawns(line: Seq<char>, y: int) -> Seq<Thing>
    decreases line.len(),
{
    if line.len() == 0 {
        seq![]
    } else {
        let before = row_spawns(line.drop_last(), y);
        match spawn_of_char(line.last()) {
            Some(k) => before.push(
                Thing { kind: k, pos: Tile { x: (line.len() - 1) as i64, y: y as i64 }, present: true },
            ),
            None => before,
        }
    }
}

/// The entities placed by a map, row by row from the top.
pub open spec fn map_spawns(lines: Seq<Seq<char>>) -> Seq<Thing>
    decreases lines.len(),
{
    if lines.len() == 0 {
        seq![]
    } else {
        map_spawns(lines.drop_last()) + row_spawns(lines.last(), lines.len() - 1)
    }
}

/// What a map text describes: a grid as high as the text has lines and as
/// wide as its longest line, and the entities it places.
pub open spec fn describes(text: Seq<char>, world: World, things: Seq<Thing>) -> bool {
    let lines = lines_of(text);
    &&& world.wf()
    &&& world.width <= i64::MAX
    &&& world.height <= i64::MAX
    &&& world.height == lines.len()
    &&& world.width == widest(lines)
    &&& forall|t: Tile|
        in_grid(world.width as int, world.height as int, t) ==> #[trigger] world.kind_at(t)
            == Some(map_tile(lines, t.x as int, t.y as int))
    &&& things == map_spawns(lines)
}

fn chars_of(text: &str) -> (r: Vec<char>)
    ensures
        r@ == text@,
{
    broadcast use vstd::string::axiom_spec_iter;

    let mut v: Vec<char> = Vec::new();
    for c in it: text.chars()
        invariant
            v@ == it.seq().take(it.index()),
    {
        v.push(c);
    }
    assert(v@ == text@);
    v
}

fn strip_cr_exec(l: Vec<char>) -> (r: Vec<char>)
    ensures
        r@ == strip_cr(l@),
{
    let mut l = l;
    if l.len() > 0 && l[l.len() - 1] == '\r' {
        l.pop();
    }
    l
}

/// Splits the text into lines.
fn split_lines(s: &Vec<char>) -> (r: Vec<Vec<char>>)
    ensures
        r@.len() == lines_of(s@).len(),
        forall|i: int| 0 <= i < r@.len() ==> (#[trigger] r@[i])@ == lines_of(s@)[i],
        r@.len() <= s@.len(),
        forall|i: int| 0 <= i < r@.len() ==> (#[trigger] r@[i])@.len() <= s@.len(),
{
    let mut rows: Vec<Vec<char>> = Vec::new();
    let mut cur: Vec<char> = Vec::new();
    let mut i: usize = 0;
    while i < s.len()
        invariant
            i <= s@.len(),
            scan(s@.take(i as int)).0.len() == rows@.len(),
            forall|j: int|
                0 <= j < rows@.len() ==> (#[trigger] rows@[j])@ == scan(s@.take(i as int)).0[j],
            cur@ == scan(s@.take(i as int)).1,
            rows@.len() + cur@.len() <= i,
            forall|j: int| 0 <= j < rows@.len() ==> (#[trigger] rows@[j])@.len() <= i,
        decreases s@.len() - i,
    {
        assert(s@.take(i + 1).drop_last() == s@.take(i as int));
        let c = s[i];
        if c == '\n' {
            let done = strip_cr_exec(cur);
            rows.push(done);
            cur = Vec::new();
        } else {
            cur.push(c);
        }
        i = i + 1;
    }
    assert(s@.take(i as int) == s@);
    if cur.len() > 0 {
        rows.push(cur);
    }
    rows
}

proof fn lemma_widest_bounds(lines: Seq<Seq<char>>, y: int)
    requires
        0 <= y < lines.len(),
    ensures
        lines[y].len() <= widest(lines),
    decreases lines.len(),
{
    if y < lines.len() - 1 {
        lemma_widest_bounds(lines.drop_last(), y);
    }
}

proof fn lemma_widest_is_some_line(lines: Seq<Seq<char>>, n: int)
    requires
        forall|i: int| 0 <= i < lines.len() ==> (#[trigger] lines[i]).len() <= n,
        0 <= n,
    ensures
        widest(lines) <= n,
    decreases lines.len(),
{
    if lines.len() > 0 {
        lemma_widest_is_some_line(lines.drop_last(), n);
    }
}

fn widest_exec(lines: &Vec<Vec<char>>) -> (r: usize)
    ensures
        r == widest(lines@.map_values(|l: Vec<char>| l@)),
{
    let ghost ls = lines@.map_values(|l: Vec<char>| l@);
    let mut w: usize = 0;
    let mut y: usize = 0;
    while y < lines.len()
        invariant
            y <= lines@.len(),
            ls == lines@.map_values(|l: Vec<char>| l@),
            w == widest(ls.take(y as int)),
        decreases lines@.len() - y,
    {
        assert(ls.take(y + 1).drop_last() == ls.take(y as int));
        if lines[y].len() > w {
            w = lines[y].len();
        }
        y = y + 1;
    }
    assert(ls.take(y as int) == ls);
    w
}

proof fn lemma_next_row(y: int, w: int)
    ensures
        (y + 1) * w == y * w + w,
{
    assert((y + 1) * w == y * w + w) by (nonlinear_arith);
}

proof fn lemma_earlier_cell(yy: int, xx: int, y: int, w: int)
    requires
        0 <= yy < y,
        0 <= xx < w,
    ensures
        0 <= yy * w + xx < y * w,
{
    assert(0 <= yy * w + xx < y * w) by (nonlinear_arith)
        requires
            0 <= yy < y,
            0 <= xx < w,
    ;
}

proof fn lemma_row_product(y: int, h: int, w: int)
    requires
        0 <= y <= h,
        0 <= w,
    ensures
        y * w <= h * w,
{
    assert(y * w <= h * w) by (nonlinear_arith)
        requires
            0 <= y <= h,
            0 <= w,
    ;
}

/// Reads a map text into its grid and the entities it places.
///
/// `x` is a wall and `0` a brittle wall; every other character is empty
/// floor. `b`, `p`, `k`, `d`, `+`, `*` and `@` place a bush, a diamond, a key,
/// a door, a life, a save point and a stone on their cell.
/// Fails only where the grid has more cells than `usize` can count.
pub fn parse_map(text: &str) -> (r: Result<(World, Vec<Thing>), MapError>)
    requires
        text@.len() <= i64::MAX,
    ensures
        match r {
            Ok((world, things)) => describes(text@, world, things@),
            Err(e) => e == MapError::TooLarge && lines_of(text@).len() * widest(lines_of(text@))
                > usize::MAX,
        },
{
    let chars = chars_of(text);
    let lines = split_lines(&chars);
    let ghost ls = lines_of(text@);
    assert(lines@.map_values(|l: Vec<char>| l@) == ls);
    let height = lines.len();
    let width = widest_exec(&lines);
    proof {
        lemma_widest_is_some_line(ls, text@.len() as int);
    }
    let total = match height.checked_mul(width) {
        Some(n) => n,
        None => {
            return Err(MapError::TooLarge);
        },
    };
    let mut cells: Vec<TileKind> = Vec::new();
    let mut things: Vec<Thing> = Vec::new();
    let mut y: usize = 0;
    while y < height
        invariant
            y <= height,
            height == lines@.len(),
            height == ls.len(),
            width == widest(ls),
            total == height * width,
            width <= i64::MAX,
            height <= i64::MAX,
            forall|i: int| 0 <= i < lines@.len() ==> (#[trigger] lines@[i])@ == ls[i],
            cells@.len() == y * width,
            forall|yy: int, xx: int|
                0 <= yy < y && 0 <= xx < width ==> #[trigger] cells@[yy * width + xx]
                    == map_tile(ls, xx, yy),
            things@ == map_spawns(ls.take(y as int)),
        decreases height - y,
    {
        let line = &lines[y];
        proof {
            lemma_widest_bounds(ls, y as int);
            lemma_row_product(y as int, height as int, width as int);
        }
        let mut x: usize = 0;
        while x < width
            invariant
                y < height,
                x <= width,
                width == widest(ls),
                height == ls.len(),
                line@ == ls[y as int],
                cells@.len() == y * width + x,
                forall|yy: int, xx: int|
                    0 <= yy < y && 0 <= xx < width ==> #[trigger] cells@[yy * width + xx]
                        == map_tile(ls, xx, yy),
                forall|xx: int|
                    0 <= xx < x ==> #[trigger] cells@[y * width + xx] == map_tile(
                        ls,
                        xx,
                        y as int,
                    ),
            decreases width - x,
        {
            let k = if x < line.len() {
                let c = line[x];
                if c == 'x' {
                    TileKind::Wall
                } else if c == '0' {
                    TileKind::BrittleWall
                } else {
                    TileKind::Empty
                }
            } else {
                TileKind::Empty
            };
            let ghost prev = cells@;
            cells.push(k);
            proof {
                assert forall|yy: int, xx: int|
                    0 <= yy < y && 0 <= xx < width implies #[trigger] cells@[yy * width + xx]
                    == map_tile(ls, xx, yy) by {
                    lemma_earlier_cell(yy, xx, y as int, width as int);
                    assert(cells@[yy * width + xx] == prev[yy * width + xx]);
                }
            }
            x = x + 1;
        }
        proof {
            lemma_next_row(y as int, width as int);
            assert forall|yy: int, xx: int|
                0 <= yy < y + 1 && 0 <= xx < width implies #[trigger] cells@[yy * width + xx]
                == map_tile(ls, xx, yy) by {
                if yy == y {
                    assert(cells@[y * width + xx] == map_tile(ls, xx, y as int));
                }
            }
        }
        let mut x: usize = 0;
        let ghost before = things@;
        while x < line.len()
            invariant
                x <= line@.len(),
                line@.len() <= i64::MAX,
                y <= i64::MAX,
                things@ == before + row_spawns(line@.take(x as int), y as int),
            decreases line@.len() - x,
        {
            assert(line@.take(x + 1).drop_last() == line@.take(x as int));
            let c = line[x];
            let pos = Tile { x: x as i64, y: y as i64 };
            let spawn = if c == 'b' {
                Some(ThingKind::Bush)
            } else if c == 'p' {
                Some(ThingKind::Diamond)
            } else if c == 'k' {
                Some(ThingKind::Key)
            } else if c == 'd' {
                Some(ThingKind::Door)
            } else if c == '+' {
                Some(ThingKind::Life)
            } else if c == '*' {
                Some(ThingKind::SavePoint)
            } else if c == '@' {
                Some(ThingKind::Stone)
            } else {
                None
            };
            match spawn {
                Some(k) => {
                    things.push(Thing { kind: k, pos, present: true });
                },
                None => {},
            }
            x = x + 1;
        }
        assert(line@.take(line@.len() as int) == line@);
        assert(ls.take(y + 1).drop_last() == ls.take(y as int));
        y = y + 1;
    }
    assert(ls.take(height as int) == ls);
    let world = World { width, height, cells };
    proof {
        assert(height * width == width * height) by (nonlinear_arith);
        assert forall|t: Tile| in_grid(width as int, height as int, t) implies #[trigger] world.kind_at(t)
            == Some(map_tile(ls, t.x as int, t.y as int)) by {
            assert(cells@[t.y * width + t.x] == map_tile(ls, t.x as int, t.y as int));
        }
    }
    Ok((world, things))
}

} // verus!
