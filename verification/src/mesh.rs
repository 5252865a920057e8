//! The tessellated quad mesh.
//!
//! The demo renders one square, subdivided into a `steps x steps` grid of
//! cells; every cell is emitted as two triangles, six vertices in all, with
//! no index buffer. The number of steps per axis is taken from a fixed table
//! of sample densities.
//!
//! All coordinates of the grid are exact: a vertex is described by its cell
//! and by which corner of the cell it is, and every derived quantity (texture
//! coordinate, position) is a fraction over the step count. The caller that
//! talks to the graphics backend evaluates those fractions numerically; the
//! structure of the mesh is decided, and verified, here.

use vstd::prelude::*;
use vstd::arithmetic::div_mod::lemma_fundamental_div_mod_converse;

verus! {

/// How many sample densities the table holds.
pub const SAMPLE_LEVELS: usize = 6;

/// The sample density selected at startup.
pub const SAMPLE_START_IDX: usize = 0;

/// The step count per axis for each sample density. Both axes use the same
/// table.
pub open spec fn spec_sample_steps(samples_idx: int) -> u32 {
    if samples_idx == 0 {
        2
    } else if samples_idx == 1 {
        4
    } else if samples_idx == 2 {
        16
    } else if samples_idx == 3 {
        64
    } else if samples_idx == 4 {
        256
    } else {
        1024
    }
}

/// Looks up the step count per axis for the given sample density.
pub fn sample_steps(samples_idx: usize) -> (steps: u32)
    requires
        samples_idx < SAMPLE_LEVELS,
    ensures
        steps == spec_sample_steps(samples_idx as int),
        2 <= steps <= 1024,
{
    if samples_idx == 0 {
        2
    } else if samples_idx == 1 {
        4
    } else if samples_idx == 2 {
        16
    } else if samples_idx == 3 {
        64
    } else if samples_idx == 4 {
        256
    } else {
        1024
    }
}

/// One vertex of the tessellated quad.
///
/// `cell_x` and `cell_y` name the grid cell, `corner` names one of the six
/// vertices the cell is emitted as: the first triangle is the cell's
/// bottom-left, top-left and top-right corner, the second its bottom-left,
/// top-right and bottom-right corner, in this order.
#[derive(Clone, Copy, Debug, PartialEq, Eq, Structural)]
pub struct GridVertex {
    pub cell_x: u32,
    pub cell_y: u32,
    pub corner: u8,
}

/// Horizontal offset, in grid units, of the cell corner that vertex number
/// `corner` of a cell uses.
pub open spec fn spec_corner_du(corner: int) -> int {
    if corner == 2 || corner == 4 || corner == 5 {
        1
    } else {
        0
    }
}

/// Vertical offset, in grid units, of the cell corner that vertex number
/// `corner` of a cell uses.
pub open spec fn spec_corner_dv(corner: int) -> int {
    if corner == 1 || corner == 2 || corner == 4 {
        1
    } else {
        0
    }
}

/// Horizontal offset of a cell's vertex number `corner`.
pub fn corner_du(corner: u8) -> (d: u32)
    requires
        corner < 6,
    ensures
        d == spec_corner_du(corner as int),
{
    if corner == 2 || corner == 4 || corner == 5 {
        1
    } else {
        0
    }
}

/// Vertical offset of a cell's vertex number `corner`.
pub fn corner_dv(corner: u8) -> (d: u32)
    requires
        corner < 6,
    ensures
        d == spec_corner_dv(corner as int),
{
    if corner == 1 || corner == 2 || corner == 4 {
        1
    } else {
        0
    }
}

/// The numerator of the vertex's horizontal texture coordinate; the
/// coordinate itself is this over the horizontal step count.
pub open spec fn spec_u_num(v: GridVertex) -> int {
    v.cell_x + spec_corner_du(v.corner as int)
}

/// The numerator of the vertex's vertical texture coordinate; the coordinate
/// itself is this over the vertical step count.
pub open spec fn spec_v_num(v: GridVertex) -> int {
    v.cell_y + spec_corner_dv(v.corner as int)
}

/// Whether the vertex belongs to the second triangle of its cell. The
/// tangent and bitangent of a vertex are those of its triangle.
pub open spec fn spec_second_triangle(v: GridVertex) -> bool {
    v.corner >= 3
}

/// The vertex that position `k` of the generated buffer holds: the cells are
/// walked column by column, bottom to top, and each cell contributes its six
/// corners in order.
pub open spec fn spec_grid_vertex(steps_y: int, k: int) -> GridVertex {
    GridVertex {
        cell_x: ((k / 6) / steps_y) as u32,
        cell_y: ((k / 6) % steps_y) as u32,
        corner: (k % 6) as u8,
    }
}

/// Division facts for the index of vertex `r` of cell `(cx, cy)` in the
/// generated buffer.
proof fn lemma_grid_index(steps_y: int, cx: int, cy: int)
    requires
        steps_y >= 1,
        0 <= cx,
        0 <= cy < steps_y,
    ensures
        (cx * steps_y + cy) / steps_y == cx,
        (cx * steps_y + cy) % steps_y == cy,
        forall|r: int|
            0 <= r < 6 ==> #[trigger] (((cx * steps_y + cy) * 6 + r) / 6) == cx * steps_y + cy
                && ((cx * steps_y + cy) * 6 + r) % 6 == r,
{
    let c = cx * steps_y + cy;
    lemma_fundamental_div_mod_converse(c, steps_y, cx, cy);
    assert forall|r: int| 0 <= r < 6 implies #[trigger] ((c * 6 + r) / 6) == c && (c * 6 + r) % 6
        == r by {
        lemma_fundamental_div_mod_converse(c * 6 + r, 6, c, r);
    }
}

/// Generates the vertices of the quad mesh for the given sample density and
/// stores them in `buffer`, discarding what the buffer held before. Returns
/// the number of vertices generated: six per cell of the grid.
///
/// Every texture-coordinate numerator lies between zero and the step count,
/// so every texture coordinate lies in the unit square.
pub fn generate_vertices(samples_idx: usize, buffer: &mut Vec<GridVertex>) -> (point_count: u32)
    requires
        samples_idx < SAMPLE_LEVELS,
    ensures
        point_count == spec_sample_steps(samples_idx as int) * spec_sample_steps(samples_idx as int)
            * 6,
        final(buffer)@.len() == point_count,
        forall|k: int|
            0 <= k < final(buffer)@.len() ==> final(buffer)@[k] == spec_grid_vertex(
                spec_sample_steps(samples_idx as int) as int,
                k,
            ),
        forall|k: int|
            0 <= k < final(buffer)@.len() ==> {
                &&& final(buffer)@[k].cell_x < spec_sample_steps(samples_idx as int)
                &&& final(buffer)@[k].cell_y < spec_sample_steps(samples_idx as int)
                &&& final(buffer)@[k].corner < 6
                &&& 0 <= spec_u_num(final(buffer)@[k]) <= spec_sample_steps(samples_idx as int)
                &&& 0 <= spec_v_num(final(buffer)@[k]) <= spec_sample_steps(samples_idx as int)
            },
{
    buffer.clear();
    let steps_x: u32 = sample_steps(samples_idx);
    let steps_y: u32 = sample_steps(samples_idx);
    let mut point_count: u32 = 0;

    let mut step_x: u32 = 0;
    while step_x < steps_x
        invariant
            steps_x == spec_sample_steps(samples_idx as int),
            steps_y == spec_sample_steps(samples_idx as int),
            2 <= steps_x <= 1024,
            steps_y == steps_x,
            step_x <= steps_x,
            point_count == buffer@.len(),
            buffer@.len() == step_x * steps_y * 6,
            forall|k: int|
                0 <= k < buffer@.len() ==> buffer@[k] == spec_grid_vertex(steps_y as int, k),
            forall|k: int|
                0 <= k < buffer@.len() ==> buffer@[k].cell_x < steps_x && buffer@[k].cell_y
                    < steps_y && buffer@[k].corner < 6,
        decreases steps_x - step_x,
    {
        let mut step_y: u32 = 0;
        while step_y < steps_y
            invariant
                steps_x == spec_sample_steps(samples_idx as int),
                steps_y == spec_sample_steps(samples_idx as int),
                2 <= steps_x <= 1024,
                steps_y == steps_x,
                step_x < steps_x,
                step_y <= steps_y,
                point_count == buffer@.len(),
                buffer@.len() == (step_x * steps_y + step_y) * 6,
                forall|k: int|
                    0 <= k < buffer@.len() ==> buffer@[k] == spec_grid_vertex(steps_y as int, k),
                forall|k: int|
                    0 <= k < buffer@.len() ==> buffer@[k].cell_x < steps_x && buffer@[k].cell_y
                        < steps_y && buffer@[k].corner < 6,
            decreases steps_y - step_y,
        {
            proof {
                assert((step_x * steps_y + step_y) * 6 + 6 <= steps_x * steps_y * 6
                    && steps_x * steps_y * 6 <= 6291456) by (nonlinear_arith)
                    requires
                        step_x < steps_x,
                        step_y < steps_y,
                        steps_x <= 1024,
                        steps_y <= 1024,
                ;
            }
            buffer.push(GridVertex { cell_x: step_x, cell_y: step_y, corner: 0 });
            buffer.push(GridVertex { cell_x: step_x, cell_y: step_y, corner: 1 });
            buffer.push(GridVertex { cell_x: step_x, cell_y: step_y, corner: 2 });
            buffer.push(GridVertex { cell_x: step_x, cell_y: step_y, corner: 3 });
            buffer.push(GridVertex { cell_x: step_x, cell_y: step_y, corner: 4 });
            buffer.push(GridVertex { cell_x: step_x, cell_y: step_y, corner: 5 });
            proof {
                lemma_grid_index(steps_y as int, step_x as int, step_y as int);
            }
            point_count = point_count + 6;
            step_y = step_y + 1;
            proof {
                assert(buffer@.len() == (step_x * steps_y + step_y) * 6) by (nonlinear_arith)
                    requires
                        buffer@.len() == (step_x * steps_y + (step_y - 1)) * 6 + 6,
                ;
            }
        }
        step_x = step_x + 1;
        proof {
            assert(buffer@.len() == step_x * steps_y * 6) by (nonlinear_arith)
                requires
                    buffer@.len() == ((step_x - 1) * steps_y + steps_y) * 6,
            ;
        }
    }
    point_count
}

} // verus!
