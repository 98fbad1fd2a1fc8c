//! A uniform grid over a rectangular map, for broad-phase queries.
//!
//! The grid is rebuilt every tick: `clear`, then one `insert` per entity,
//! then `query` and `get`. Boxes that reach outside the map are clamped to
//! it, so every box is indexed into cells that exist.

use crate::physics::collision::AABB;
use crate::util::math::Vec2;
use crate::util::scalar::{
    at_most, clamp_of, floor, integer_of, mirrored, product, quotient, scalar_of_u32, Scalar,
};
use std::collections::HashSet;
use vstd::prelude::*;

verus! {

broadcast use vstd::std_specs::hash::group_hash_axioms;

/// The keys of `n` neighbouring cells of row `y`, from column `x0` on.
pub open spec fn row_keys(x0: u32, n: nat, y: u32, grid_width: u32) -> Seq<u32> {
    Seq::new(n, |i: int| (x0 + i + y * grid_width) as u32)
}

/// The keys of the columns `x0..=x1` in `rows` rows from row `y0` on, row by row.
pub open spec fn rect_rows(x0: u32, x1: u32, y0: u32, rows: nat, grid_width: u32) -> Seq<u32>
    decreases rows,
{
    if rows == 0 {
        Seq::empty()
    } else {
        rect_rows(x0, x1, y0, (rows - 1) as nat, grid_width) + row_keys(
            x0,
            (x1 - x0 + 1) as nat,
            (y0 + rows - 1) as u32,
            grid_width,
        )
    }
}

/// The keys `x + y * grid_width` of the cells with `x0 <= x <= x1` and
/// `y0 <= y <= y1`, row by row; none where a range is empty.
pub open spec fn rect_keys(x0: u32, x1: u32, y0: u32, y1: u32, grid_width: u32) -> Seq<u32> {
    if x0 > x1 || y0 > y1 {
        Seq::empty()
    } else {
        rect_rows(x0, x1, y0, (y1 - y0 + 1) as nat, grid_width)
    }
}

/// The index that a coordinate inside the map floors to: `floor(coord * inv)`
/// as an integer, where all three steps have a result.
pub open spec fn scaled_floor(coord: Scalar, inv: Scalar) -> Option<u32> {
    match product(coord, inv) {
        Some(p) => match floor(p) {
            Some(f) => integer_of(f),
            None => None,
        },
        None => None,
    }
}

/// The index of a cell along one axis with `count` cells: the floored index
/// where there is one, else 0, and the last cell where it lies beyond.
pub open spec fn spec_clamp_index(raw: Option<u32>, count: u32) -> u32 {
    let i = match raw {
        Some(i) => i,
        None => 0,
    };
    if i >= count {
        (count - 1) as u32
    } else {
        i
    }
}

/// The scalar zero, the lower bound of the map on both axes.
pub open spec fn origin() -> Scalar {
    scalar_of_u32(0)
}

/// Brings a floored index into `0..count`.
pub fn clamp_index(raw: Option<u32>, count: u32) -> (r: u32)
    requires
        count >= 1,
    ensures
        r == spec_clamp_index(raw, count),
        r < count,
{
    let i: u32 = match raw {
        Some(i) => i,
        None => 0,
    };
    if i >= count {
        count - 1
    } else {
        i
    }
}

/// Lists the keys of the cells in the rectangle of columns `x0..=x1` and rows
/// `y0..=y1`, row by row.
pub fn cell_keys(x0: u32, x1: u32, y0: u32, y1: u32, grid_width: u32, grid_height: u32) -> (keys:
    Vec<u32>)
    requires
        x1 < grid_width,
        y1 < grid_height,
        grid_width * grid_height <= u32::MAX,
    ensures
        keys@ == rect_keys(x0, x1, y0, y1, grid_width),
        forall|i: int| 0 <= i < keys.len() ==> keys[i] < grid_width * grid_height,
{
    let mut keys: Vec<u32> = Vec::new();
    if x0 > x1 || y0 > y1 {
        return keys;
    }
    let mut y: u32 = y0;
    while y <= y1
        invariant
            x0 <= x1 < grid_width,
            y0 <= y <= y1 + 1,
            y1 < grid_height,
            grid_width * grid_height <= u32::MAX,
            keys@ =~= rect_rows(x0, x1, y0, (y - y0) as nat, grid_width),
            forall|i: int| 0 <= i < keys.len() ==> keys[i] < grid_width * grid_height,
        decreases y1 + 1 - y,
    {
        assert(y * grid_width + grid_width <= grid_width * grid_height) by (nonlinear_arith)
            requires
                y < grid_height,
        ;
        let base: u32 = y * grid_width;
        let ghost done = keys@;
        let mut x: u32 = x0;
        while x <= x1
            invariant
                x0 <= x <= x1 + 1,
                x1 < grid_width,
                base == y * grid_width,
                base + grid_width <= grid_width * grid_height <= u32::MAX,
                keys@ =~= done + row_keys(x0, (x - x0) as nat, y, grid_width),
                forall|i: int| 0 <= i < done.len() ==> done[i] < grid_width * grid_height,
                forall|i: int| 0 <= i < keys.len() ==> keys[i] < grid_width * grid_height,
            decreases x1 + 1 - x,
        {
            keys.push(x + base);
            x = x + 1;
        }
        y = y + 1;
    }
    keys
}

/// The cells after an object has joined those with the given keys: the cells
/// are sets, so joining a cell twice is the same as joining it once.
pub open spec fn with_object(cells: Seq<Set<u32>>, keys: Seq<u32>, object_id: u32) -> Seq<Set<u32>> {
    Seq::new(
        cells.len(),
        |k: int|
            if keys.contains(k as u32) {
                cells[k].insert(object_id)
            } else {
                cells[k]
            },
    )
}

/// Inserting an object a second time with the same keys changes nothing.
pub proof fn with_object_is_idempotent(cells: Seq<Set<u32>>, keys: Seq<u32>, object_id: u32)
    ensures
        with_object(with_object(cells, keys, object_id), keys, object_id) == with_object(
            cells,
            keys,
            object_id,
        ),
{
    let once = with_object(cells, keys, object_id);
    let twice = with_object(once, keys, object_id);
    assert forall|k: int| 0 <= k < cells.len() implies twice[k] == once[k] by {
        assert(twice[k] =~= once[k]);
    }
    assert(twice =~= once);
}

/// A prefix that is one longer holds what the shorter prefix holds and the
/// element that follows it.
proof fn prefix_grows_by_one(s: Seq<u32>, i: int, v: u32)
    requires
        0 <= i < s.len(),
    ensures
        s.take(i + 1).contains(v) <==> (s.take(i).contains(v) || s[i] == v),
{
    let shorter = s.take(i);
    let longer = s.take(i + 1);
    if shorter.contains(v) {
        let j = choose|j: int| 0 <= j < shorter.len() && shorter[j] == v;
        assert(longer[j] == v);
    }
    if s[i] == v {
        assert(longer[i] == v);
    }
    if longer.contains(v) {
        let j = choose|j: int| 0 <= j < longer.len() && longer[j] == v;
        if j < i {
            assert(shorter[j] == v);
        }
    }
}

/// A spatial hashmap for storing objects (with AABB bounding boxes) in a 2D grid.
///
/// Uses a grid of cells, where each cell contains the set of objects in that cell.
pub struct SpatialHashMap {
    map_width: Scalar,
    map_height: Scalar,
    cell_width: Scalar,
    inv_cell_width: Scalar,
    cell_height: Scalar,
    inv_cell_height: Scalar,
    grid_width: u32,
    grid_height: u32,
    grid: Vec<HashSet<u32>>,
}

/// `std::collections::HashSet::clone`: the copy holds the same elements.
#[verifier::external_body]
fn clone_cell(cell: &HashSet<u32>) -> (r: HashSet<u32>)
    ensures
        r@ == cell@,
{
    cell.clone()
}

/// `std::collections::HashSet::extend`, given another set: afterwards `into`
/// holds what it held before and every element of `cell`.
#[verifier::external_body]
fn extend_with(into: &mut HashSet<u32>, cell: &HashSet<u32>)
    ensures
        final(into)@ == old(into)@.union(cell@),
{
    into.extend(cell)
}

/// Whether a grid can be made for these dimensions: there is at least one
/// cell and at most `u32::MAX` of them, the map has no negative extent, and
/// the cell sizes and their inverses can be computed.
pub open spec fn constructible(
    map_width: Scalar,
    map_height: Scalar,
    grid_width: u32,
    grid_height: u32,
) -> bool {
    &&& grid_width >= 1
    &&& grid_height >= 1
    &&& grid_width * grid_height <= u32::MAX
    &&& at_most(origin(), map_width)
    &&& at_most(origin(), map_height)
    &&& spec_inverse_cell(map_width, grid_width) is Some
    &&& spec_inverse_cell(map_height, grid_height) is Some
}

/// The size of a cell along one axis: the map's extent divided by the number of cells.
pub open spec fn spec_cell_size(extent: Scalar, count: u32) -> Option<Scalar> {
    quotient(extent, scalar_of_u32(count))
}

/// One divided by the size of a cell.
pub open spec fn spec_inverse_cell(extent: Scalar, count: u32) -> Option<Scalar> {
    match spec_cell_size(extent, count) {
        Some(size) => quotient(scalar_of_u32(1), size),
        None => None,
    }
}

/// Computes the size of a cell along one axis and its inverse.
fn cell_size(extent: Scalar, count: u32) -> (r: Option<(Scalar, Scalar)>)
    ensures
        match r {
            Some((size, inv)) => spec_cell_size(extent, count) == Some(size) && spec_inverse_cell(
                extent,
                count,
            ) == Some(inv),
            None => spec_inverse_cell(extent, count) is None,
        },
{
    match extent.div(Scalar::from_u32(count)) {
        Some(size) => match Scalar::from_u32(1).div(size) {
            Some(inv) => Some((size, inv)),
            None => None,
        },
        None => None,
    }
}

/// Computes `floor(coord * inv)` as an integer.
fn floored(coord: Scalar, inv: Scalar) -> (r: Option<u32>)
    ensures
        r == scaled_floor(coord, inv),
{
    match coord.mul(inv) {
        Some(p) => match p.floor() {
            Some(f) => f.to_u32(),
            None => None,
        },
        None => None,
    }
}

impl SpatialHashMap {
    /// The width of the map.
    pub closed spec fn map_width(&self) -> Scalar {
        self.map_width
    }

    /// The height of the map.
    pub closed spec fn map_height(&self) -> Scalar {
        self.map_height
    }

    /// The width of one cell.
    pub closed spec fn cell_width(&self) -> Scalar {
        self.cell_width
    }

    /// The height of one cell.
    pub closed spec fn cell_height(&self) -> Scalar {
        self.cell_height
    }

    /// One divided by the width of a cell.
    pub closed spec fn inv_cell_width(&self) -> Scalar {
        self.inv_cell_width
    }

    /// One divided by the height of a cell.
    pub closed spec fn inv_cell_height(&self) -> Scalar {
        self.inv_cell_height
    }

    /// The number of columns.
    pub closed spec fn grid_width(&self) -> u32 {
        self.grid_width
    }

    /// The number of rows.
    pub closed spec fn grid_height(&self) -> u32 {
        self.grid_height
    }

    /// What each cell holds, by key.
    pub closed spec fn cells(&self) -> Seq<Set<u32>> {
        Seq::new(self.grid@.len(), |k: int| self.grid@[k]@)
    }

    /// The grid has a cell for every key below `grid_width * grid_height`,
    /// at least one, and the map's extents are not below zero.
    pub open spec fn wf(&self) -> bool {
        &&& self.grid_width() >= 1
        &&& self.grid_height() >= 1
        &&& self.grid_width() * self.grid_height() <= u32::MAX
        &&& self.cells().len() == self.grid_width() * self.grid_height()
        &&& at_most(origin(), self.map_width())
        &&& at_most(origin(), self.map_height())
        &&& mirrored(origin(), self.map_width())
        &&& mirrored(origin(), self.map_height())
    }

    /// Everything about the grid but the contents of its cells is the same.
    pub open spec fn same_layout(&self, other: &SpatialHashMap) -> bool {
        &&& self.map_width() == other.map_width()
        &&& self.map_height() == other.map_height()
        &&& self.cell_width() == other.cell_width()
        &&& self.cell_height() == other.cell_height()
        &&& self.inv_cell_width() == other.inv_cell_width()
        &&& self.inv_cell_height() == other.inv_cell_height()
        &&& self.grid_width() == other.grid_width()
        &&& self.grid_height() == other.grid_height()
        &&& self.cells().len() == other.cells().len()
    }

    /// The column of the cell that holds the horizontal coordinate `x`,
    /// after `x` is clamped to the map.
    pub open spec fn column(&self, x: Scalar) -> u32 {
        spec_clamp_index(
            scaled_floor(clamp_of(x, origin(), self.map_width()), self.inv_cell_width()),
            self.grid_width(),
        )
    }

    /// The row of the cell that holds the vertical coordinate `y`, after `y`
    /// is clamped to the map.
    pub open spec fn row(&self, y: Scalar) -> u32 {
        spec_clamp_index(
            scaled_floor(clamp_of(y, origin(), self.map_height()), self.inv_cell_height()),
            self.grid_height(),
        )
    }

    /// The keys of the cells that `aabb` touches.
    pub open spec fn keys(&self, aabb: AABB) -> Seq<u32> {
        rect_keys(
            self.column(aabb.min.x),
            self.column(aabb.max.x),
            self.row(aabb.min.y),
            self.row(aabb.max.y),
            self.grid_width(),
        )
    }

    /// `aabb` with every corner coordinate clamped to the map.
    pub open spec fn clamped(&self, aabb: AABB) -> AABB {
        AABB {
            min: Vec2 {
                x: clamp_of(aabb.min.x, origin(), self.map_width()),
                y: clamp_of(aabb.min.y, origin(), self.map_height()),
            },
            max: Vec2 {
                x: clamp_of(aabb.max.x, origin(), self.map_width()),
                y: clamp_of(aabb.max.y, origin(), self.map_height()),
            },
        }
    }

    /// What the cell with the given key holds; nothing where there is no such cell.
    pub open spec fn cell(&self, key: u32) -> Set<u32> {
        if key < self.cells().len() {
            self.cells()[key as int]
        } else {
            Set::empty()
        }
    }

    /// The identifiers held by at least one cell that `aabb` touches.
    pub open spec fn candidates(&self, aabb: AABB) -> Set<u32> {
        Set::new(
            |id: u32|
                exists|i: int|
                    0 <= i < self.keys(aabb).len() && #[trigger] self.cell(
                        self.keys(aabb)[i],
                    ).contains(id),
        )
    }

    /// Creates an empty grid of `grid_width * grid_height` cells over a map
    /// of the given size. `None` where no such grid can be made.
    pub fn new(map_width: Scalar, map_height: Scalar, grid_width: u32, grid_height: u32) -> (r:
        Option<SpatialHashMap>)
        ensures
            r is Some <==> constructible(map_width, map_height, grid_width, grid_height),
            match r {
                Some(g) => {
                    &&& g.wf()
                    &&& g.map_width() == map_width
                    &&& g.map_height() == map_height
                    &&& g.grid_width() == grid_width
                    &&& g.grid_height() == grid_height
                    &&& Some(g.cell_width()) == spec_cell_size(map_width, grid_width)
                    &&& Some(g.cell_height()) == spec_cell_size(map_height, grid_height)
                    &&& Some(g.inv_cell_width()) == spec_inverse_cell(map_width, grid_width)
                    &&& Some(g.inv_cell_height()) == spec_inverse_cell(map_height, grid_height)
                    &&& forall|k: int| 0 <= k < g.cells().len() ==> g.cells()[k] == Set::<u32>::empty()
                },
                None => true,
            },
    {
        if grid_width == 0 || grid_height == 0 {
            return None;
        }
        let count: u32 = match grid_width.checked_mul(grid_height) {
            Some(count) => count,
            None => {
                return None;
            },
        };
        let zero = Scalar::from_u32(0);
        if !zero.le(map_width) || !zero.le(map_height) {
            return None;
        }
        let (cell_width, inv_cell_width) = match cell_size(map_width, grid_width) {
            Some(pair) => pair,
            None => {
                return None;
            },
        };
        let (cell_height, inv_cell_height) = match cell_size(map_height, grid_height) {
            Some(pair) => pair,
            None => {
                return None;
            },
        };
        let mut grid: Vec<HashSet<u32>> = Vec::new();
        let mut k: u32 = 0;
        while k < count
            invariant
                k <= count,
                grid@.len() == k,
                forall|i: int| 0 <= i < grid@.len() ==> grid@[i]@ == Set::<u32>::empty(),
            decreases count - k,
        {
            grid.push(HashSet::new());
            k = k + 1;
        }
        Some(
            SpatialHashMap {
                map_width,
                map_height,
                cell_width,
                inv_cell_width,
                cell_height,
                inv_cell_height,
                grid_width,
                grid_height,
                grid,
            },
        )
    }

    /// Returns the keys of all the cells that the given AABB touches, row by
    /// row: the box is clamped to the map, its corners are turned into cell
    /// indices, and these are clamped to the grid.
    pub fn keys_iter(&self, aabb: &AABB) -> (keys: Vec<u32>)
        requires
            self.wf(),
        ensures
            keys@ == self.keys(*aabb),
            forall|i: int| 0 <= i < keys.len() ==> keys[i] < self.cells().len(),
    {
        let zero = Scalar::from_u32(0);
        let min_x = aabb.min.x.clamp(zero, self.map_width);
        let min_y = aabb.min.y.clamp(zero, self.map_height);
        let max_x = aabb.max.x.clamp(zero, self.map_width);
        let max_y = aabb.max.y.clamp(zero, self.map_height);

        let min_x_idx = clamp_index(floored(min_x, self.inv_cell_width), self.grid_width);
        let min_y_idx = clamp_index(floored(min_y, self.inv_cell_height), self.grid_height);
        let max_x_idx = clamp_index(floored(max_x, self.inv_cell_width), self.grid_width);
        let max_y_idx = clamp_index(floored(max_y, self.inv_cell_height), self.grid_height);

        cell_keys(min_x_idx, max_x_idx, min_y_idx, max_y_idx, self.grid_width, self.grid_height)
    }

    /// Inserts an object with the given AABB into the grid: its identifier
    /// joins every cell that the box touches, and no other cell changes.
    pub fn insert(&mut self, object_id: u32, aabb: &AABB)
        requires
            old(self).wf(),
        ensures
            final(self).wf(),
            final(self).same_layout(old(self)),
            final(self).cells() == with_object(
                old(self).cells(),
                old(self).keys(*aabb),
                object_id,
            ),
            forall|i: int|
                0 <= i < old(self).keys(*aabb).len() ==> #[trigger] final(self).cell(
                    old(self).keys(*aabb)[i],
                ).contains(object_id),
    {
        let keys = self.keys_iter(aabb);
        let ghost before = self.cells();
        let mut i: usize = 0;
        while i < keys.len()
            invariant
                i <= keys.len(),
                self.wf(),
                self.same_layout(old(self)),
                before == old(self).cells(),
                keys@ == old(self).keys(*aabb),
                forall|j: int| 0 <= j < keys.len() ==> keys[j] < before.len(),
                forall|k: int|
                    0 <= k < before.len() ==> #[trigger] self.cells()[k] =~= (if keys@.take(
                        i as int,
                    ).contains(k as u32) {
                        before[k].insert(object_id)
                    } else {
                        before[k]
                    }),
            decreases keys.len() - i,
        {
            let key = keys[i];
            let ghost prev = self.cells();
            self.grid[key as usize].insert(object_id);
            proof {
                assert forall|k: int| 0 <= k < before.len() implies #[trigger] self.cells()[k]
                    =~= (if keys@.take(i + 1).contains(k as u32) {
                    before[k].insert(object_id)
                } else {
                    before[k]
                }) by {
                    prefix_grows_by_one(keys@, i as int, k as u32);
                    assert(self.cells()[k] == if k == key {
                        prev[k].insert(object_id)
                    } else {
                        prev[k]
                    });
                }
            }
            i = i + 1;
        }
        assert(keys@.take(keys.len() as int) =~= keys@);
        assert(self.cells() =~= with_object(before, keys@, object_id));
    }

    /// Returns all unique object IDs in the specified cell; none where the
    /// key names no cell.
    pub fn get(&self, key: u32) -> (r: HashSet<u32>)
        ensures
            r@ == self.cell(key),
    {
        if (key as usize) < self.grid.len() {
            clone_cell(&self.grid[key as usize])
        } else {
            HashSet::new()
        }
    }

    /// Returns all unique object IDs held by a cell that the given AABB
    /// touches. This is the coarse filter: an object returned need not
    /// overlap the box itself.
    pub fn query(&self, aabb: &AABB) -> (r: HashSet<u32>)
        requires
            self.wf(),
        ensures
            r@ == self.candidates(*aabb),
    {
        let mut result: HashSet<u32> = HashSet::new();
        let keys = self.keys_iter(aabb);
        let mut i: usize = 0;
        while i < keys.len()
            invariant
                i <= keys.len(),
                keys@ == self.keys(*aabb),
                forall|j: int| 0 <= j < keys.len() ==> keys[j] < self.cells().len(),
                forall|id: u32|
                    result@.contains(id) <==> exists|j: int|
                        0 <= j < i && #[trigger] self.cell(keys@[j]).contains(id),
            decreases keys.len() - i,
        {
            let key = keys[i];
            let ghost found = result@;
            extend_with(&mut result, &self.grid[key as usize]);
            proof {
                assert(self.grid@[key as int]@ == self.cell(keys@[i as int]));
                assert forall|id: u32|
                    result@.contains(id) <==> exists|j: int|
                        0 <= j < i + 1 && #[trigger] self.cell(keys@[j]).contains(id) by {
                    if found.contains(id) {
                        let j = choose|j: int|
                            0 <= j < i && #[trigger] self.cell(keys@[j]).contains(id);
                        assert(0 <= j < i + 1 && self.cell(keys@[j]).contains(id));
                    }
                    if self.cell(keys@[i as int]).contains(id) {
                        assert(0 <= i < i + 1 && self.cell(keys@[i as int]).contains(id));
                    }
                }
            }
            i = i + 1;
        }
        assert(result@ =~= self.candidates(*aabb));
        result
    }

    /// Clears all objects from the grid. The grid keeps its dimensions, and
    /// every query on it comes back empty.
    pub fn clear(&mut self)
        requires
            old(self).wf(),
        ensures
            final(self).wf(),
            final(self).same_layout(old(self)),
            final(self).is_empty(),
            forall|aabb: AABB| #[trigger] final(self).candidates(aabb) == Set::<u32>::empty(),
    {
        let mut k: usize = 0;
        while k < self.grid.len()
            invariant
                k <= self.grid@.len(),
                self.wf(),
                self.same_layout(old(self)),
                forall|j: int| 0 <= j < k ==> #[trigger] self.cells()[j] == Set::<u32>::empty(),
            decreases self.grid@.len() - k,
        {
            let ghost prev = self.cells();
            assert(forall|j: int| 0 <= j < k ==> #[trigger] prev[j] == Set::<u32>::empty());
            self.grid[k].clear();
            assert(forall|j: int|
                0 <= j < prev.len() && j != k ==> #[trigger] self.cells()[j] == prev[j]);
            assert(self.cells()[k as int] == Set::<u32>::empty());
            k = k + 1;
        }
        proof {
            assert forall|aabb: AABB| #[trigger] self.candidates(aabb) == Set::<u32>::empty() by {
                self.candidates_of_empty_grid(aabb);
            }
        }
    }

    /// No cell holds anything.
    pub open spec fn is_empty(&self) -> bool {
        forall|k: int| 0 <= k < self.cells().len() ==> #[trigger] self.cells()[k] == Set::<u32>::empty()
    }

    /// A query on a grid whose cells are all empty finds nothing, whatever
    /// the box.
    pub proof fn candidates_of_empty_grid(&self, aabb: AABB)
        requires
            self.is_empty(),
        ensures
            self.candidates(aabb) == Set::<u32>::empty(),
    {
        assert forall|id: u32| !self.candidates(aabb).contains(id) by {
            if self.candidates(aabb).contains(id) {
                let i = choose|i: int|
                    0 <= i < self.keys(aabb).len() && #[trigger] self.cell(
                        self.keys(aabb)[i],
                    ).contains(id);
                let key = self.keys(aabb)[i];
                if key < self.cells().len() {
                    assert(self.cells()[key as int] == Set::<u32>::empty());
                }
            }
        }
        assert(self.candidates(aabb) =~= Set::<u32>::empty());
    }

    /// Clamping is built into the index: a box and the same box clamped to
    /// the map touch the same cells. In particular a box that lies outside
    /// the map is indexed like the part of the boundary it is clamped to.
    pub proof fn keys_of_clamped_box(&self, aabb: AABB)
        requires
            self.wf(),
        ensures
            self.keys(self.clamped(aabb)) == self.keys(aabb),
    {
    }

    /// On a grid of a single cell every box touches that cell and no other.
    pub proof fn single_cell_holds_every_box(&self, aabb: AABB)
        requires
            self.wf(),
            self.grid_width() == 1,
            self.grid_height() == 1,
        ensures
            self.keys(aabb) == seq![0u32],
    {
        reveal_with_fuel(rect_rows, 2);
        assert(self.keys(aabb) =~= seq![0u32]);
    }

    /// After an insertion every cell that the box touches holds the
    /// identifier, so a query with the same box finds it, provided the box
    /// touches a cell at all.
    pub proof fn inserted_is_found(
        before: &SpatialHashMap,
        after: &SpatialHashMap,
        object_id: u32,
        aabb: AABB,
    )
        requires
            after.same_layout(before),
            before.keys(aabb).len() > 0,
            forall|i: int|
                0 <= i < before.keys(aabb).len() ==> #[trigger] after.cell(
                    before.keys(aabb)[i],
                ).contains(object_id),
        ensures
            after.keys(aabb) == before.keys(aabb),
            after.candidates(aabb).contains(object_id),
    {
        assert(after.cell(after.keys(aabb)[0]).contains(object_id));
    }
}

/// The key of the cell in column `x` of row `y`.
pub open spec fn key_of(x: int, y: int, grid_width: u32) -> int {
    x + y * grid_width
}

/// `key` is the key of a cell in the rectangle of columns `x0..=x1` and rows
/// `y0..=y1`.
pub open spec fn in_rectangle(
    key: u32,
    x0: u32,
    x1: u32,
    y0: u32,
    y1: u32,
    grid_width: u32,
) -> bool {
    exists|x: int, y: int|
        x0 <= x <= x1 && y0 <= y <= y1 && key == #[trigger] key_of(x, y, grid_width)
}

/// The first `rows` rows of a rectangle hold the keys of their cells and no
/// other key, one for each cell.
proof fn rect_rows_hold_their_cells(x0: u32, x1: u32, y0: u32, rows: nat, grid_width: u32)
    requires
        x0 <= x1 < grid_width,
        rows >= 1,
        (y0 + rows) * grid_width <= u32::MAX,
    ensures
        rect_rows(x0, x1, y0, rows, grid_width).len() == rows * (x1 - x0 + 1),
        forall|key: u32|
            rect_rows(x0, x1, y0, rows, grid_width).contains(key) <==> in_rectangle(
                key,
                x0,
                x1,
                y0,
                (y0 + rows - 1) as u32,
                grid_width,
            ),
    decreases rows,
{
    let width = (x1 - x0 + 1) as nat;
    assert(y0 + rows <= (y0 + rows) * grid_width) by (nonlinear_arith)
        requires
            grid_width >= 1,
    ;
    let y1 = (y0 + rows - 1) as u32;
    let above = rect_rows(x0, x1, y0, (rows - 1) as nat, grid_width);
    let last = row_keys(x0, width, y1, grid_width);
    let all = rect_rows(x0, x1, y0, rows, grid_width);
    assert((y0 + rows - 1) * grid_width <= (y0 + rows) * grid_width) by (nonlinear_arith);
    assert(y1 * grid_width + grid_width == (y0 + rows) * grid_width) by (nonlinear_arith)
        requires
            y1 == y0 + rows - 1,
    ;
    assert(rows * (x1 - x0 + 1) == (rows - 1) * (x1 - x0 + 1) + (x1 - x0 + 1))
        by (nonlinear_arith);
    if rows > 1 {
        rect_rows_hold_their_cells(x0, x1, y0, (rows - 1) as nat, grid_width);
    }
    assert(all == above + last);
    assert forall|key: u32| all.contains(key) implies in_rectangle(
        key,
        x0,
        x1,
        y0,
        y1,
        grid_width,
    ) by {
        let i = choose|i: int| 0 <= i < all.len() && all[i] == key;
        if i < above.len() {
            assert(above[i] == key);
            assert(above.contains(key));
            let before = (y0 + (rows - 1) as nat - 1) as u32;
            assert(before == y1 - 1);
            assert(in_rectangle(key, x0, x1, y0, before, grid_width));
            let (x, y) = choose|x: int, y: int|
                x0 <= x <= x1 && y0 <= y <= y1 - 1 && key == #[trigger] key_of(x, y, grid_width);
            assert(x0 <= x <= x1 && y0 <= y <= y1 && key == key_of(x, y, grid_width));
        } else {
            let x = x0 + (i - above.len());
            assert(all[i] == last[i - above.len()]);
            assert(x0 <= x <= x1 && y0 <= y1 <= y1 && key == key_of(x, y1 as int, grid_width));
        }
    }
    assert forall|key: u32| in_rectangle(key, x0, x1, y0, y1, grid_width) implies all.contains(
        key,
    ) by {
        let (x, y) = choose|x: int, y: int|
            x0 <= x <= x1 && y0 <= y <= y1 && key == #[trigger] key_of(x, y, grid_width);
        if y < y1 {
            assert(x0 <= x <= x1 && y0 <= y <= y1 - 1 && key == key_of(x, y, grid_width));
            let before = (y0 + (rows - 1) as nat - 1) as u32;
            assert(before == y1 - 1);
            assert(in_rectangle(key, x0, x1, y0, before, grid_width));
            assert(above.contains(key));
            let j = choose|j: int| 0 <= j < above.len() && above[j] == key;
            assert(all[j] == key);
        } else {
            assert(last[x - x0] == key);
            assert(all[above.len() + (x - x0)] == key);
        }
    }
}

/// The keys of a rectangle are the keys `x + y * grid_width` of its cells
/// and no others, and there are as many keys as cells.
pub proof fn rect_keys_are_the_cells(
    x0: u32,
    x1: u32,
    y0: u32,
    y1: u32,
    grid_width: u32,
    grid_height: u32,
)
    requires
        x1 < grid_width,
        y1 < grid_height,
        grid_width * grid_height <= u32::MAX,
    ensures
        x0 <= x1 && y0 <= y1 ==> rect_keys(x0, x1, y0, y1, grid_width).len() == (x1 - x0 + 1) * (y1
            - y0 + 1),
        forall|key: u32|
            rect_keys(x0, x1, y0, y1, grid_width).contains(key) <==> in_rectangle(
                key,
                x0,
                x1,
                y0,
                y1,
                grid_width,
            ),
{
    if x0 <= x1 && y0 <= y1 {
        let rows = (y1 - y0 + 1) as nat;
        assert((y0 + rows) * grid_width <= grid_width * grid_height) by (nonlinear_arith)
            requires
                y0 + rows <= grid_height,
        ;
        assert((x1 - x0 + 1) * (y1 - y0 + 1) == rows * (x1 - x0 + 1)) by (nonlinear_arith)
            requires
                rows == y1 - y0 + 1,
        ;
        rect_rows_hold_their_cells(x0, x1, y0, rows, grid_width);
    }
}

} // verus!
