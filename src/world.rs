//! The tile grid.
use vstd::prelude::*;
use crate::geometry::Tile;

verus! {

/// What a grid cell holds.
#[derive(Clone, Copy, Debug, PartialEq, Eq, Structural)]
pub enum TileKind {
    Empty,
    Wall,
    BrittleWall,
}

/// Whether a cell of this kind stops motion onto it.
pub open spec fn kind_blocks(k: TileKind) -> bool {
    k == TileKind::Wall || k == TileKind::BrittleWall
}

/// A rectangular grid of tiles, stored row by row.
pub struct World {
    pub width: usize,
    pub height: usize,
    pub cells: Vec<TileKind>,
}

/// Whether `t` lies on a grid of the given size.
pub open spec fn in_grid(width: int, height: int, t: Tile) -> bool {
    0 <= t.x < width && 0 <= t.y < height
}

/// The place of tile `t` in a row-by-row list of cells.
pub open spec fn cell_index(width: int, t: Tile) -> int {
    t.y * width + t.x
}

pub proof fn lemma_cell_index_bounds(width: int, height: int, t: Tile)
    requires
        in_grid(width, height, t),
    ensures
        0 <= t.y * width <= cell_index(width, t) < width * height,
{
    assert(0 <= t.y * width <= t.y * width + t.x < width * height) by (nonlinear_arith)
        requires
            0 <= t.x < width,
            0 <= t.y < height,
    ;
}

/// The kind at `t` of a grid given by its size and its cells, or `None`
/// off the grid.
pub open spec fn grid_kind(width: int, height: int, cells: Seq<TileKind>, t: Tile) -> Option<
    TileKind,
> {
    if in_grid(width, height, t) {
        Some(cells[cell_index(width, t)])
    } else {
        None
    }
}

/// A tile blocks motion when it is a wall or a brittle wall; tiles off the
/// grid hold neither.
pub open spec fn grid_blocks(width: int, height: int, cells: Seq<TileKind>, t: Tile) -> bool {
    match grid_kind(width, height, cells, t) {
        Some(k) => kind_blocks(k),
        None => false,
    }
}

/// The cells after a hammer strike at `t`: a brittle wall there becomes
/// empty floor, anything else stays.
pub open spec fn grid_after_strike(width: int, height: int, cells: Seq<TileKind>, t: Tile) -> Seq<
    TileKind,
> {
    if grid_kind(width, height, cells, t) == Some(TileKind::BrittleWall) {
        cells.update(cell_index(width, t), TileKind::Empty)
    } else {
        cells
    }
}

impl World {
    /// The cell list holds exactly one entry per tile.
    pub open spec fn wf(&self) -> bool {
        &&& self.cells@.len() == self.width * self.height
        &&& self.width * self.height <= usize::MAX
    }

    /// The kind at `t`, or `None` off the grid.
    pub open spec fn kind_at(&self, t: Tile) -> Option<TileKind> {
        grid_kind(self.width as int, self.height as int, self.cells@, t)
    }

    /// A tile blocks motion when it is a wall or a brittle wall; tiles off the
/// grid hold neither.
    pub open spec fn blocks(&self, t: Tile) -> bool {
        grid_blocks(self.width as int, self.height as int, self.cells@, t)
    }

    /// The cells after a hammer strike at `t`: a brittle wall there becomes
    /// empty floor, anything else stays.
    pub open spec fn cells_after_strike(&self, t: Tile) -> Seq<TileKind> {
        grid_after_strike(self.width as int, self.height as int, self.cells@, t)
    }

    /// The grid's width and height.
    pub fn dims(&self) -> (r: (usize, usize))
        ensures
            r == (self.width, self.height),
    {
        (self.width, self.height)
    }

    /// The place of `t` in `cells`, or `None` off the grid.
    fn index_of(&self, t: Tile) -> (r: Option<usize>)
        requires
            self.wf(),
        ensures
            r is Some <==> in_grid(self.width as int, self.height as int, t),
            r matches Some(i) ==> i as int == cell_index(self.width as int, t) && i
                < self.cells@.len(),
    {
        if t.x < 0 || t.y < 0 || t.x as u64 >= self.width as u64 || t.y as u64 >= self.height as u64 {
            None
        } else {
            proof {
                lemma_cell_index_bounds(self.width as int, self.height as int, t);
            }
            let row = (t.y as usize) * self.width;
            let i = row + (t.x as usize);
            Some(i)
        }
    }

    /// The kind at `t`, or `None` off the grid.
    pub fn tile_kind(&self, t: Tile) -> (r: Option<TileKind>)
        requires
            self.wf(),
        ensures
            r == self.kind_at(t),
    {
        match self.index_of(t) {
            Some(i) => Some(self.cells[i]),
            None => None,
        }
    }

    /// Whether `t` blocks motion: a wall or a brittle wall.
    pub fn is_blocking(&self, t: Tile) -> (r: bool)
        requires
            self.wf(),
        ensures
            r == self.blocks(t),
    {
        match self.tile_kind(t) {
            Some(k) => k == TileKind::Wall || k == TileKind::BrittleWall,
            None => false,
        }
    }

    /// Breaks a brittle wall at `t`, leaving empty floor; anything else is
    /// left as it is. Returns whether a wall was broken.
    pub fn destroy_brittle(&mut self, t: Tile) -> (r: bool)
        requires
            old(self).wf(),
        ensures
            final(self).wf(),
            final(self).width == old(self).width,
            final(self).height == old(self).height,
            final(self).cells@ == old(self).cells_after_strike(t),
            r == (old(self).kind_at(t) == Some(TileKind::BrittleWall)),
    {
        match self.index_of(t) {
            Some(i) => {
                if self.cells[i] == TileKind::BrittleWall {
                    self.cells.set(i, TileKind::Empty);
                    true
                } else {
                    false
                }
            },
            None => false,
        }
    }
}

} // verus!
