//! The voxel occupancy grid and its random generation.

use rand::Rng;
use vstd::prelude::*;

verus! {

/// Cells along each axis of the grid.
pub const WORLD_EXTENT: usize = 256;

/// Cells along each axis, counted from 0, that generation may occupy.
pub const POPULATED_EXTENT: usize = 250;

/// Number of cells in the grid.
pub const WORLD_CELLS: usize = 16_777_216;

/// Exclusive upper bound of the draw that decides whether a cell is occupied;
/// the draw starts at 1.
pub const OCCUPANCY_DRAW_END: u32 = 20;

/// The one occupancy draw that makes a cell occupied.
pub const OCCUPIED_DRAW: u32 = 1;

/// Exclusive upper bound of the density of a cell; an occupied cell has a
/// density of at least 1.
pub const DENSITY_END: u32 = 10;

/// Whether `(x, y, z)` names a cell of the grid.
pub open spec fn in_world(x: int, y: int, z: int) -> bool {
    0 <= x < WORLD_EXTENT && 0 <= y < WORLD_EXTENT && 0 <= z < WORLD_EXTENT
}

/// Whether `(x, y, z)` names a cell of the sub-region that may be occupied.
pub open spec fn in_populated(x: int, y: int, z: int) -> bool {
    0 <= x < POPULATED_EXTENT && 0 <= y < POPULATED_EXTENT && 0 <= z < POPULATED_EXTENT
}

/// Where the cell `(x, y, z)` lies in the flat sequence of cells: `x` varies
/// slowest and `z` fastest.
pub open spec fn cell_index(x: int, y: int, z: int) -> int {
    (x * WORLD_EXTENT + y) * WORLD_EXTENT + z
}

/// Whether `density` may stand in an occupied cell.
pub open spec fn is_occupied_density(density: u32) -> bool {
    1 <= density < DENSITY_END
}

/// What holds of the cells of every grid: there are `WORLD_CELLS` of them,
/// each is empty (0) or holds a density below `DENSITY_END`, and every cell
/// outside the populated sub-region is empty.
pub open spec fn grid_invariant(cells: Seq<u32>) -> bool {
    &&& cells.len() == WORLD_CELLS
    &&& forall|x: int, y: int, z: int|
        in_world(x, y, z) ==> {
            let density = cells[#[trigger] cell_index(x, y, z)];
            &&& density < DENSITY_END
            &&& !in_populated(x, y, z) ==> density == 0
        }
}

/// Distinct cells of the grid lie at distinct places of the flat sequence,
/// and every cell lies inside it.
pub proof fn lemma_cell_index_injective(x1: int, y1: int, z1: int, x2: int, y2: int, z2: int)
    requires
        in_world(x1, y1, z1),
        in_world(x2, y2, z2),
    ensures
        0 <= cell_index(x1, y1, z1) < WORLD_CELLS,
        cell_index(x1, y1, z1) == cell_index(x2, y2, z2) ==> x1 == x2 && y1 == y2 && z1 == z2,
{
}

/// In a well-formed grid every cell outside the populated sub-region is
/// empty, and every cell that is not empty lies inside it and holds a
/// density of an occupied cell.
pub proof fn lemma_cells_of_well_formed_world(world: VoxelWorld, x: int, y: int, z: int)
    requires
        world.well_formed(),
        in_world(x, y, z),
    ensures
        !in_populated(x, y, z) ==> world.density(x, y, z) == 0,
        world.density(x, y, z) != 0 ==> in_populated(x, y, z) && is_occupied_density(
            world.density(x, y, z),
        ),
{
}

/// A fixed grid of densities; 0 marks an empty cell.
pub struct VoxelWorld {
    cells: Vec<u32>,
}

impl View for VoxelWorld {
    type V = Seq<u32>;

    /// The densities in flat order, see `cell_index`.
    closed spec fn view(&self) -> Seq<u32> {
        self.cells@
    }
}

impl VoxelWorld {
    /// Holds of every grid that this module hands out, and is asked of every
    /// grid it is given.
    pub open spec fn well_formed(self) -> bool {
        grid_invariant(self@)
    }

    /// The density of the cell `(x, y, z)`.
    pub open spec fn density(self, x: int, y: int, z: int) -> u32 {
        self@[cell_index(x, y, z)]
    }

    /// A grid without any occupied cell.
    pub fn empty() -> (world: VoxelWorld)
        ensures
            world.well_formed(),
            forall|i: int| 0 <= i < WORLD_CELLS ==> world@[i] == 0,
    {
        VoxelWorld { cells: vec![0u32; WORLD_CELLS] }
    }

    /// The density of the cell `(x, y, z)`, or `None` outside the grid.
    pub fn get(&self, x: usize, y: usize, z: usize) -> (density: Option<u32>)
        requires
            self.well_formed(),
        ensures
            density == if in_world(x as int, y as int, z as int) {
                Some(self.density(x as int, y as int, z as int))
            } else {
                None
            },
    {
        if x < WORLD_EXTENT && y < WORLD_EXTENT && z < WORLD_EXTENT {
            proof {
                lemma_cell_index_injective(x as int, y as int, z as int, 0, 0, 0);
            }
            Some(self.cells[(x * WORLD_EXTENT + y) * WORLD_EXTENT + z])
        } else {
            None
        }
    }

    /// Stores `density` in the cell `(x, y, z)` if the cell lies in the
    /// populated sub-region and the density is one of an occupied cell;
    /// otherwise leaves the grid as it is. Says whether it stored.
    pub fn occupy(&mut self, x: usize, y: usize, z: usize, density: u32) -> (stored: bool)
        requires
            old(self).well_formed(),
        ensures
            final(self).well_formed(),
            stored == (in_populated(x as int, y as int, z as int) && is_occupied_density(density)),
            stored ==> final(self)@ == old(self)@.update(
                cell_index(x as int, y as int, z as int),
                density,
            ),
            !stored ==> final(self)@ == old(self)@,
    {
        if x < POPULATED_EXTENT && y < POPULATED_EXTENT && z < POPULATED_EXTENT && 1 <= density
            && density < DENSITY_END {
            let index: usize = (x * WORLD_EXTENT + y) * WORLD_EXTENT + z;
            proof {
                let before = self@;
                let after = before.update(index as int, density);
                assert forall|x2: int, y2: int, z2: int| in_world(x2, y2, z2) implies {
                    let d = after[#[trigger] cell_index(x2, y2, z2)];
                    &&& d < DENSITY_END
                    &&& !in_populated(x2, y2, z2) ==> d == 0
                } by {
                    lemma_cell_index_injective(x2, y2, z2, x as int, y as int, z as int);
                }
            }
            self.cells[index] = density;
            true
        } else {
            false
        }
    }

    /// The densities in flat order, as the compute kernel reads them.
    pub fn cells(&self) -> (cells: &Vec<u32>)
        ensures
            cells@ == self@,
    {
        &self.cells
    }

    /// A grid in which every cell of the populated sub-region was decided by
    /// a draw of its own: it is occupied when `is_occupied_draw` says so of a
    /// draw from `1..OCCUPANCY_DRAW_END`, and then holds a second draw, from
    /// `1..DENSITY_END`, as its density.
    pub fn generate() -> (world: VoxelWorld)
        ensures
            world.well_formed(),
    {
        let mut world = VoxelWorld::empty();
        for x in 0..POPULATED_EXTENT
            invariant
                world.well_formed(),
        {
            for y in 0..POPULATED_EXTENT
                invariant
                    world.well_formed(),
            {
                for z in 0..POPULATED_EXTENT
                    invariant
                        world.well_formed(),
                {
                    let occupancy: u32 = draw_in_range(1, OCCUPANCY_DRAW_END);
                    if is_occupied_draw(occupancy) {
                        let density: u32 = draw_in_range(1, DENSITY_END);
                        world.occupy(x, y, z, density);
                    }
                }
            }
        }
        world
    }
}

/// Whether an occupancy draw makes its cell occupied: only `OCCUPIED_DRAW`
/// does.
pub fn is_occupied_draw(draw: u32) -> (occupied: bool)
    ensures
        occupied == (draw == OCCUPIED_DRAW),
{
    draw == OCCUPIED_DRAW
}

/// Calls `rand::thread_rng()` and, on the generator it returns,
/// `rand::Rng::gen_range(low..high)`. The contract claims only the range of
/// the result: at least `low` and below `high`. Nothing is claimed of how
/// the results are distributed, nor that two calls agree. An empty range
/// would panic and is left out; a system that cannot seed the generator
/// ends the process, which no argument avoids.
#[verifier::external_body]
fn draw_in_range(low: u32, high: u32) -> (draw: u32)
    requires
        low < high,
    ensures
        low <= draw < high,
{
    rand::thread_rng().gen_range(low..high)
}

} // verus!
