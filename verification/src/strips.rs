use vstd::prelude::*;

use crate::error::TerrainError;
use crate::grid::flat_index;
use crate::grid::lemma_flat_index_in_grid;

verus! {

/// How many triangle strips a grid of `divisions_z` rows yields: every
/// adjacent row pair forms one strip, and the final row does not begin a
/// new one, so one fewer than the row count.
pub open spec fn strip_count(divisions_z: int) -> int {
    divisions_z - 1
}

/// How many vertex indices one strip holds: each of the `divisions_x`
/// columns contributes one index from the top row and one from the bottom
/// row of the pair.
pub open spec fn strip_len(divisions_x: int) -> int {
    2 * divisions_x
}

/// The `j`-th vertex index of strip `strip`: the traversal alternates
/// between the strip's top row (`strip`, at even `j`) and its bottom row
/// (`strip + 1`, at odd `j`), walking column `j / 2` of the row-major grid.
pub open spec fn strip_entry(divisions_x: int, strip: int, j: int) -> int {
    flat_index(divisions_x, j / 2, strip + (j % 2))
}

/// Every vertex index that a strip traversal names lies inside the grid:
/// feeding the strip indices back against the `divisions_x * divisions_z`
/// row-major vertex sequence never reaches out of bounds, for any
/// non-degenerate division pair.
pub proof fn lemma_strip_entry_in_grid(divisions_x: int, divisions_z: int, strip: int, j: int)
    requires
        1 <= divisions_x,
        1 <= divisions_z,
        0 <= strip < strip_count(divisions_z),
        0 <= j < strip_len(divisions_x),
    ensures
        0 <= strip_entry(divisions_x, strip, j) < divisions_x * divisions_z,
{
    assert(0 <= j / 2 < divisions_x);
    assert(0 <= strip + (j % 2) < divisions_z);
    lemma_flat_index_in_grid(divisions_x, divisions_z, j / 2, strip + (j % 2));
}

/// The triangle-strip index lists for a row-major grid of `divisions_x`
/// columns and `divisions_z` rows: one list per adjacent row pair, each
/// alternating between the pair's top and bottom row so that consecutive
/// index triples form the triangles of that quad row. Degenerate division
/// counts (zero rows or zero columns) are rejected. The indices are 32-bit,
/// so the grid's point count must fit in one.
pub fn generate_terrain_triangle_strips_from_vertices(divisions_x: u32, divisions_z: u32) -> (result:
    Result<Vec<Vec<u32>>, TerrainError>)
    requires
        divisions_x * divisions_z <= u32::MAX,
    ensures
        result is Ok <==> divisions_x >= 1 && divisions_z >= 1,
        result matches Ok(strips) ==> {
            &&& strips@.len() == strip_count(divisions_z as int)
            &&& forall|s: int|
                0 <= s < strips@.len() ==> #[trigger] strips@[s]@.len() == strip_len(
                    divisions_x as int,
                )
            &&& forall|s: int, j: int|
                0 <= s < strips@.len() && 0 <= j < strip_len(divisions_x as int)
                    ==> #[trigger] strips@[s]@[j] == strip_entry(divisions_x as int, s, j)
            &&& forall|s: int, j: int|
                0 <= s < strips@.len() && 0 <= j < strip_len(divisions_x as int)
                    ==> #[trigger] strips@[s]@[j] < divisions_x * divisions_z
        },
        result matches Err(e) ==> e == TerrainError::InvalidGrid,
{
    let mut strips: Vec<Vec<u32>> = Vec::new();

    if divisions_x == 0 || divisions_z == 0 {
        return Err(TerrainError::InvalidGrid);
    }

    let n_strips: u32 = divisions_z - 1;

    let mut strip_idx: u32 = 0;
    while strip_idx < n_strips
        invariant
            divisions_x >= 1,
            divisions_z >= 1,
            divisions_x * divisions_z <= u32::MAX,
            n_strips == divisions_z - 1,
            strip_idx <= n_strips,
            strips@.len() == strip_idx,
            forall|s: int|
                0 <= s < strips@.len() ==> #[trigger] strips@[s]@.len() == strip_len(
                    divisions_x as int,
                ),
            forall|s: int, j: int|
                0 <= s < strips@.len() && 0 <= j < strip_len(divisions_x as int)
                    ==> #[trigger] strips@[s]@[j] == strip_entry(divisions_x as int, s, j),
        decreases n_strips - strip_idx,
    {
        proof {
            assert(strip_idx * divisions_x + 2 * divisions_x <= divisions_x * divisions_z)
                by (nonlinear_arith)
                requires
                    divisions_x >= 1,
                    strip_idx + 2 <= divisions_z,
            ;
        }
        let top_left_index: u32 = strip_idx * divisions_x;
        let bottom_left_index: u32 = top_left_index + divisions_x;

        let mut strip_verts: Vec<u32> = Vec::new();
        let mut x_idx: u32 = 0;
        while x_idx < divisions_x
            invariant
                divisions_x >= 1,
                strip_idx < n_strips,
                top_left_index == strip_idx * divisions_x,
                bottom_left_index == top_left_index + divisions_x,
                bottom_left_index + divisions_x <= u32::MAX + 1,
                x_idx <= divisions_x,
                strip_verts@.len() == 2 * x_idx,
                forall|j: int|
                    0 <= j < strip_verts@.len() ==> #[trigger] strip_verts@[j] == strip_entry(
                        divisions_x as int,
                        strip_idx as int,
                        j,
                    ),
            decreases divisions_x - x_idx,
        {
            strip_verts.push(top_left_index + x_idx);
            strip_verts.push(bottom_left_index + x_idx);
            proof {
                let dx = divisions_x as int;
                let s = strip_idx as int;
                let x = x_idx as int;
                assert((2 * x) % 2 == 0);
                assert((2 * x) / 2 == x);
                assert((2 * x + 1) % 2 == 1);
                assert((2 * x + 1) / 2 == x);
                assert((s + 1) * dx == s * dx + dx) by (nonlinear_arith);
                assert(strip_entry(dx, s, 2 * x) == s * dx + x);
                assert(strip_entry(dx, s, 2 * x + 1) == s * dx + dx + x);
            }
            x_idx = x_idx + 1;
        }

        strips.push(strip_verts);
        strip_idx = strip_idx + 1;
    }

    proof {
        assert forall|s: int, j: int|
            0 <= s < strips@.len() && 0 <= j < strip_len(divisions_x as int) implies #[trigger] strips@[s]@[j]
            < divisions_x * divisions_z by {
            lemma_strip_entry_in_grid(divisions_x as int, divisions_z as int, s, j);
        }
    }

    Ok(strips)
}

} // verus!
