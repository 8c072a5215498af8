//! The tile grid: a fixed-size array of cells, each empty or holding the
//! handle of the tile that occupies it, and the coordinate transforms
//! between world space and tile space.
//!
//! World space has `y` growing upwards. Tile space has its origin at the
//! top-left corner of the grid and `y` growing downwards, so row 0 is the
//! topmost row. The transforms take the translation that the grid is given
//! in the world, `origin`: for a screen of `width` by `height` centred on
//! the world's origin that is `(-width/2, -height/2)`, and a world point
//! `(x, y)` lies at `(x + width/2, height/2 - y)` in tile space.

use vstd::prelude::*;
use vstd::arithmetic::div_mod::lemma_div_denominator;
use crate::vector::{
    add_clamped, clamp_i32, div_toward_zero, mirror_clamped, mul_clamped, sub_clamped, IVec2,
    IVec3,
};

verus! {

/// The handle of a tile: its index in the table of tiles.
pub type TileId = usize;

/// The tile that a tile-space coordinate falls in, along one axis.
pub open spec fn axis_to_tile(coordinate: int, scale: int, tile_size: int) -> int
    recommends
        scale > 0,
        tile_size > 0,
{
    div_toward_zero(div_toward_zero(coordinate, scale), tile_size)
}

pub struct TileMap {
    /// Size in tiles.
    size: IVec2,
    /// Size of a tile in pixels.
    tile_size: IVec2,
    /// World units per pixel.
    scale: IVec2,
    tiles: Vec<Option<TileId>>,
}

impl TileMap {
    pub closed spec fn spec_size(&self) -> IVec2 {
        self.size
    }

    pub closed spec fn spec_tile_size(&self) -> IVec2 {
        self.tile_size
    }

    pub closed spec fn spec_scale(&self) -> IVec2 {
        self.scale
    }

    /// The cells in row-major order: cell `(x, y)` stands at `x + y * size.x`.
    pub closed spec fn cells(&self) -> Seq<Option<TileId>> {
        self.tiles@
    }

    /// What a grid must satisfy: positive tile size and scale, a size that is
    /// not negative, and one cell for each index.
    pub open spec fn wf(&self) -> bool {
        &&& Self::valid_dimensions(self.spec_size(), self.spec_tile_size(), self.spec_scale())
        &&& self.cells().len() == self.spec_size().x * self.spec_size().y
    }

    /// The dimensions that [`TileMap::new`] accepts: the number of cells must
    /// fit in an `i32`.
    pub open spec fn valid_dimensions(size: IVec2, tile_size: IVec2, scale: IVec2) -> bool {
        &&& size.x >= 0
        &&& size.y >= 0
        &&& size.x * size.y <= i32::MAX
        &&& tile_size.x > 0
        &&& tile_size.y > 0
        &&& scale.x > 0
        &&& scale.y > 0
    }

    /// Whether `point` names a cell of the grid.
    pub open spec fn in_bounds(&self, point: IVec2) -> bool {
        &&& 0 <= point.x < self.spec_size().x
        &&& 0 <= point.y < self.spec_size().y
    }

    /// The place of cell `point` in [`TileMap::cells`].
    pub open spec fn cell_index(&self, point: IVec2) -> int {
        point.x + point.y * self.spec_size().x
    }

    /// The occupant of cell `point`; none outside the grid.
    pub open spec fn occupant(&self, point: IVec2) -> Option<TileId> {
        if self.in_bounds(point) {
            self.cells()[self.cell_index(point)]
        } else {
            None
        }
    }

    /// The drawing layer of a row: rows nearer the top get higher layers.
    pub open spec fn spec_tile_z(&self, tile: IVec2) -> int {
        clamp_i32(self.spec_size().y - tile.y)
    }

    /// World space to tile space, for a grid with the translation `origin`:
    /// `x` is counted from `origin.x`, `y` downwards from `-origin.y`. Each
    /// result is clamped to the `i32` range.
    pub open spec fn spec_to_tile_space(origin: IVec3, point: IVec3) -> IVec3 {
        IVec3 {
            x: clamp_i32(point.x - origin.x) as i32,
            y: clamp_i32(-origin.y - point.y) as i32,
            z: point.z,
        }
    }

    /// Tile space back to world space: the mirror image of
    /// [`TileMap::spec_to_tile_space`].
    pub open spec fn spec_to_camera_space(origin: IVec3, point: IVec3) -> IVec3 {
        IVec3 {
            x: clamp_i32(point.x + origin.x) as i32,
            y: clamp_i32(-origin.y - point.y) as i32,
            z: point.z,
        }
    }

    /// The index of the tile that a tile-space point falls in.
    pub open spec fn spec_to_tile(&self, point: IVec3) -> IVec2 {
        IVec2 {
            x: axis_to_tile(point.x as int, self.spec_scale().x as int, self.spec_tile_size().x as int) as i32,
            y: axis_to_tile(point.y as int, self.spec_scale().y as int, self.spec_tile_size().y as int) as i32,
        }
    }

    pub open spec fn spec_camera_to_tile(&self, origin: IVec3, point: IVec3) -> IVec2 {
        self.spec_to_tile(Self::spec_to_tile_space(origin, point))
    }

    /// Where the tile at `index` is drawn, in pixels of tile space.
    pub open spec fn tile_position(&self, index: IVec2) -> IVec3 {
        IVec3 {
            x: clamp_i32(index.x * self.spec_tile_size().x) as i32,
            y: clamp_i32(index.y * self.spec_tile_size().y) as i32,
            z: self.spec_tile_z(index) as i32,
        }
    }

    /// An empty grid of `size` tiles.
    pub fn new(size: IVec2, tile_size: IVec2, scale: IVec2) -> (map: Self)
        requires
            Self::valid_dimensions(size, tile_size, scale),
        ensures
            map.wf(),
            map.spec_size() == size,
            map.spec_tile_size() == tile_size,
            map.spec_scale() == scale,
            forall|i: int| 0 <= i < map.cells().len() ==> map.cells()[i] is None,
    {
        let count: usize = (size.x as i64 * size.y as i64) as usize;
        let mut tiles: Vec<Option<TileId>> = Vec::new();
        let mut filled: usize = 0;
        while filled < count
            invariant
                filled <= count,
                tiles@.len() == filled,
                forall|i: int| 0 <= i < tiles@.len() ==> tiles@[i] is None,
            decreases count - filled,
        {
            tiles.push(None);
            filled = filled + 1;
        }
        TileMap { size, tile_size, scale, tiles }
    }

    #[verifier::when_used_as_spec(spec_size)]
    pub fn size(&self) -> (size: IVec2)
        ensures
            size == self.spec_size(),
    {
        self.size
    }

    #[verifier::when_used_as_spec(spec_tile_size)]
    pub fn tile_size(&self) -> (tile_size: IVec2)
        ensures
            tile_size == self.spec_tile_size(),
    {
        self.tile_size
    }

    #[verifier::when_used_as_spec(spec_scale)]
    pub fn scale(&self) -> (scale: IVec2)
        ensures
            scale == self.spec_scale(),
    {
        self.scale
    }

    /// Puts `entity` on cell `location` and hands back the occupant it
    /// displaces, which the caller must destroy. Outside the grid nothing
    /// happens.
    pub fn insert(&mut self, entity: TileId, location: IVec2) -> (displaced: Option<TileId>)
        requires
            old(self).wf(),
        ensures
            final(self).wf(),
            final(self).spec_size() == old(self).spec_size(),
            final(self).spec_tile_size() == old(self).spec_tile_size(),
            final(self).spec_scale() == old(self).spec_scale(),
            displaced == old(self).occupant(location),
            !old(self).in_bounds(location) ==> final(self).cells() == old(self).cells(),
            old(self).in_bounds(location) ==> final(self).cells() == old(self).cells().update(
                old(self).cell_index(location),
                Some(entity),
            ),
            old(self).in_bounds(location) ==> final(self).occupant(location) == Some(entity),
            forall|other: IVec2|
                other != location ==> #[trigger] final(self).occupant(other) == old(self).occupant(
                    other,
                ),
    {
        if location.x < 0 || location.x >= self.size.x {
            return None;
        }
        if location.y < 0 || location.y >= self.size.y {
            return None;
        }
        let tile_index: usize = self.tile_index(location);
        let displaced: Option<TileId> = self.tiles[tile_index];
        self.tiles[tile_index] = Some(entity);
        proof {
            assert forall|other: IVec2| other != location implies #[trigger] self.occupant(other)
                == old(self).occupant(other) by {
                if old(self).in_bounds(other) {
                    if old(self).cell_index(other) == old(self).cell_index(location) {
                        old(self).lemma_cell_index_injective(other, location);
                    }
                    old(self).lemma_cell_index_in_range(other);
                }
            }
        }
        displaced
    }

    /// The occupant of each occupied cell with the place where it is drawn,
    /// column by column and from row 0 down within a column.
    pub fn transform_tiles(&self) -> (placed: Vec<(TileId, IVec3)>)
        requires
            self.wf(),
        ensures
            placed@ == self.placements(self.spec_size().x as int),
    {
        let mut placed: Vec<(TileId, IVec3)> = Vec::new();
        let mut x: i32 = 0;
        while x < self.size.x
            invariant
                self.wf(),
                0 <= x <= self.size.x,
                placed@ == self.placements(x as int),
            decreases self.size.x - x,
        {
            let mut y: i32 = 0;
            while y < self.size.y
                invariant
                    self.wf(),
                    0 <= x < self.size.x,
                    0 <= y <= self.size.y,
                    placed@ == self.placements(x as int) + self.column_placements(x as int, y as int),
                decreases self.size.y - y,
            {
                let index: IVec2 = IVec2 { x, y };
                if let Some(tile) = self.tile_at(index) {
                    let position: IVec3 = IVec3 {
                        x: mul_clamped(x, self.tile_size.x),
                        y: mul_clamped(y, self.tile_size.y),
                        z: self.tile_z(&index),
                    };
                    placed.push((tile, position));
                }
                y = y + 1;
                proof {
                    assert(self.column_placements(x as int, y as int)
                        == self.column_placements(x as int, y - 1) + self.cell_placement(
                        IVec2 { x, y: (y - 1) as i32 },
                    ));
                }
            }
            x = x + 1;
        }
        placed
    }

    /// What [`TileMap::transform_tiles`] lists for one cell: nothing, or the
    /// occupant with its place.
    pub open spec fn cell_placement(&self, index: IVec2) -> Seq<(TileId, IVec3)> {
        match self.occupant(index) {
            Some(tile) => seq![(tile, self.tile_position(index))],
            None => Seq::empty(),
        }
    }

    /// The listing of rows `0..rows` of column `x`.
    pub open spec fn column_placements(&self, x: int, rows: int) -> Seq<(TileId, IVec3)>
        decreases rows,
    {
        if rows <= 0 {
            Seq::empty()
        } else {
            self.column_placements(x, rows - 1) + self.cell_placement(
                IVec2 { x: x as i32, y: (rows - 1) as i32 },
            )
        }
    }

    /// The listing of columns `0..columns`, each in full.
    pub open spec fn placements(&self, columns: int) -> Seq<(TileId, IVec3)>
        decreases columns,
    {
        if columns <= 0 {
            Seq::empty()
        } else {
            self.placements(columns - 1) + self.column_placements(
                columns - 1,
                self.spec_size().y as int,
            )
        }
    }

    /// Z-level of the passed tile.
    pub fn tile_z(&self, tile: &IVec2) -> (z: i32)
        ensures
            z as int == self.spec_tile_z(*tile),
    {
        sub_clamped(self.size.y, tile.y)
    }

    pub fn to_tile_space(&self, origin: IVec3, point: IVec3) -> (result: IVec3)
        ensures
            result == Self::spec_to_tile_space(origin, point),
    {
        IVec3 {
            x: sub_clamped(point.x, origin.x),
            y: mirror_clamped(origin.y, point.y),
            z: point.z,
        }
    }

    pub fn to_camera_space(&self, origin: IVec3, point: IVec3) -> (result: IVec3)
        ensures
            result == Self::spec_to_camera_space(origin, point),
    {
        IVec3 {
            x: add_clamped(point.x, origin.x),
            y: mirror_clamped(origin.y, point.y),
            z: point.z,
        }
    }

    /// Converts a tile-space point to the index of the tile under it.
    pub fn to_tile(&self, point: IVec3) -> (tile: IVec2)
        requires
            self.wf(),
        ensures
            tile == self.spec_to_tile(point),
    {
        let scaled: IVec2 = IVec2 { x: point.x / self.scale.x, y: point.y / self.scale.y };
        IVec2 { x: scaled.x / self.tile_size.x, y: scaled.y / self.tile_size.y }
    }

    pub fn camera_to_tile(&self, origin: IVec3, point: IVec3) -> (tile: IVec2)
        requires
            self.wf(),
        ensures
            tile == self.spec_camera_to_tile(origin, point),
    {
        self.to_tile(self.to_tile_space(origin, point))
    }

    pub fn tile_at(&self, point: IVec2) -> (occupant: Option<TileId>)
        requires
            self.wf(),
        ensures
            occupant == self.occupant(point),
            !self.in_bounds(point) ==> occupant is None,
    {
        if point.x < 0 || point.x >= self.size.x {
            None
        } else if point.y < 0 || point.y >= self.size.y {
            None
        } else {
            self.tiles[self.tile_index(point)]
        }
    }

    fn tile_index(&self, point: IVec2) -> (index: usize)
        requires
            self.wf(),
            self.in_bounds(point),
        ensures
            index as int == self.cell_index(point),
            index < self.cells().len(),
    {
        proof {
            self.lemma_cell_index_in_range(point);
        }
        (point.x as i64 + (point.y as i64 * self.size.x as i64)) as usize
    }

    /// Every cell of the grid has its own place in [`TileMap::cells`].
    pub proof fn lemma_cell_index_in_range(&self, point: IVec2)
        requires
            self.wf(),
            self.in_bounds(point),
        ensures
            0 <= self.cell_index(point) < self.cells().len(),
            point.y * self.spec_size().x <= i32::MAX,
    {
        let w = self.spec_size().x as int;
        let h = self.spec_size().y as int;
        let y = point.y as int;
        assert(y * w >= 0) by (nonlinear_arith)
            requires
                y >= 0,
                w >= 0,
        ;
        assert((y + 1) * w <= h * w) by (nonlinear_arith)
            requires
                y + 1 <= h,
                w >= 0,
        ;
        assert((y + 1) * w == y * w + w) by (nonlinear_arith);
        assert(h * w == w * h) by (nonlinear_arith);
    }

    /// Two cells of the grid with the same place in [`TileMap::cells`] are
    /// the same cell.
    pub proof fn lemma_cell_index_injective(&self, a: IVec2, b: IVec2)
        requires
            self.wf(),
            self.in_bounds(a),
            self.in_bounds(b),
            self.cell_index(a) == self.cell_index(b),
        ensures
            a == b,
    {
        let w = self.spec_size().x as int;
        let (ax, ay, bx, by) = (a.x as int, a.y as int, b.x as int, b.y as int);
        if ay < by {
            assert(by * w >= (ay + 1) * w) by (nonlinear_arith)
                requires
                    by >= ay + 1,
                    w >= 0,
            ;
            assert((ay + 1) * w == ay * w + w) by (nonlinear_arith);
        } else if by < ay {
            assert(ay * w >= (by + 1) * w) by (nonlinear_arith)
                requires
                    ay >= by + 1,
                    w >= 0,
            ;
            assert((by + 1) * w == by * w + w) by (nonlinear_arith);
        }
    }
}

/// A world point and its image in tile space determine each other: going
/// to tile space and back returns the point, as long as neither step leaves
/// the `i32` range.
pub proof fn lemma_transform_round_trip(origin: IVec3, point: IVec3)
    requires
        i32::MIN <= point.x - origin.x <= i32::MAX,
        i32::MIN <= -origin.y - point.y <= i32::MAX,
    ensures
        TileMap::spec_to_camera_space(origin, TileMap::spec_to_tile_space(origin, point)) == point,
{
}

/// For a tile-space point with no negative coordinate, the tile index is
/// the coordinate divided by `scale * tile_size`, rounded down.
pub proof fn lemma_to_tile_is_floor(map: &TileMap, point: IVec3)
    requires
        map.wf(),
        point.x >= 0,
        point.y >= 0,
    ensures
        map.spec_to_tile(point).x == point.x as int / (map.spec_scale().x * map.spec_tile_size().x),
        map.spec_to_tile(point).y == point.y as int / (map.spec_scale().y * map.spec_tile_size().y),
{
    lemma_axis_is_floor(point.x as int, map.spec_scale().x as int, map.spec_tile_size().x as int);
    lemma_axis_is_floor(point.y as int, map.spec_scale().y as int, map.spec_tile_size().y as int);
}

proof fn lemma_axis_is_floor(coordinate: int, scale: int, tile_size: int)
    requires
        0 <= coordinate <= i32::MAX,
        scale > 0,
        tile_size > 0,
    ensures
        axis_to_tile(coordinate, scale, tile_size) == coordinate / (scale * tile_size),
        0 <= axis_to_tile(coordinate, scale, tile_size) <= i32::MAX,
{
    lemma_div_denominator(coordinate, scale, tile_size);
    assert(coordinate / scale >= 0 && coordinate / scale <= coordinate) by (nonlinear_arith)
        requires
            coordinate >= 0,
            scale > 0,
    ;
    let q = coordinate / scale;
    assert(q / tile_size >= 0 && q / tile_size <= q) by (nonlinear_arith)
        requires
            q >= 0,
            tile_size > 0,
    ;
}

} // verus!
