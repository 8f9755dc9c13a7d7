use vstd::prelude::*;

use crate::error::TerrainError;

verus! {

/// One grid coordinate of the terrain surface: column `xp` (along the x
/// axis) and row `zp` (along the z axis). The caller turns a grid point
/// into a world-space vertex by scaling each coordinate by the world size
/// over the division count and sampling a height for the vertical axis.
#[derive(Clone, Copy, Debug, PartialEq, Eq, Structural)]
pub struct GridPoint {
    pub xp: u32,
    pub zp: u32,
}

/// The flat position of grid coordinate (`xp`, `zp`) in a row-major vertex
/// buffer with `divisions_x` columns: all of row 0 first, then row 1, and
/// so on. All downstream index arithmetic rests on this layout.
pub open spec fn flat_index(divisions_x: int, xp: int, zp: int) -> int {
    zp * divisions_x + xp
}

/// A flat row-major index within a grid of `divisions_x` columns and
/// `divisions_z` rows stays below the grid's point count.
pub proof fn lemma_flat_index_in_grid(divisions_x: int, divisions_z: int, xp: int, zp: int)
    requires
        0 <= xp < divisions_x,
        0 <= zp < divisions_z,
    ensures
        0 <= flat_index(divisions_x, xp, zp) < divisions_x * divisions_z,
{
    assert(0 <= zp * divisions_x + xp < divisions_x * divisions_z) by (nonlinear_arith)
        requires
            0 <= xp < divisions_x,
            0 <= zp < divisions_z,
    ;
}

/// The grid coordinates of every vertex of the terrain surface, row-major:
/// `divisions_x * divisions_z` points, and the point at flat index
/// `zp * divisions_x + xp` is (`xp`, `zp`). Degenerate division counts
/// (zero rows or zero columns) are rejected.
pub fn generate_terrain_grid_points(divisions_x: u32, divisions_z: u32) -> (result: Result<
    Vec<GridPoint>,
    TerrainError,
>)
    ensures
        result is Ok <==> divisions_x >= 1 && divisions_z >= 1,
        result matches Ok(points) ==> {
            &&& points@.len() == divisions_x * divisions_z
            &&& forall|zp: int, xp: int|
                0 <= zp < divisions_z && 0 <= xp < divisions_x
                    ==> points@[flat_index(divisions_x as int, xp, zp)] == (GridPoint {
                    xp: xp as u32,
                    zp: zp as u32,
                })
            &&& forall|i: int|
                0 <= i < points@.len() ==> #[trigger] points@[i] == (GridPoint {
                    xp: (i % (divisions_x as int)) as u32,
                    zp: (i / (divisions_x as int)) as u32,
                })
        },
        result matches Err(e) ==> e == TerrainError::InvalidGrid,
{
    if divisions_x == 0 || divisions_z == 0 {
        return Err(TerrainError::InvalidGrid);
    }
    let mut points: Vec<GridPoint> = Vec::new();
    let mut zp: u32 = 0;
    while zp < divisions_z
        invariant
            divisions_x >= 1,
            divisions_z >= 1,
            zp <= divisions_z,
            points@.len() == zp * divisions_x,
            forall|i: int|
                0 <= i < points@.len() ==> #[trigger] points@[i] == (GridPoint {
                    xp: (i % (divisions_x as int)) as u32,
                    zp: (i / (divisions_x as int)) as u32,
                }),
        decreases divisions_z - zp,
    {
        let mut xp: u32 = 0;
        while xp < divisions_x
            invariant
                divisions_x >= 1,
                divisions_z >= 1,
                zp < divisions_z,
                xp <= divisions_x,
                points@.len() == zp * divisions_x + xp,
                forall|i: int|
                    0 <= i < points@.len() ==> #[trigger] points@[i] == (GridPoint {
                        xp: (i % (divisions_x as int)) as u32,
                        zp: (i / (divisions_x as int)) as u32,
                    }),
            decreases divisions_x - xp,
        {
            proof {
                vstd::arithmetic::div_mod::lemma_fundamental_div_mod_converse(
                    zp as int * divisions_x as int + xp as int,
                    divisions_x as int,
                    zp as int,
                    xp as int,
                );
            }
            points.push(GridPoint { xp, zp });
            xp = xp + 1;
        }
        zp = zp + 1;
        proof {
            assert(zp * divisions_x == (zp - 1) * divisions_x + divisions_x) by (nonlinear_arith);
        }
    }
    proof {
        assert(divisions_z as int * divisions_x as int == divisions_x as int * divisions_z as int)
            by (nonlinear_arith);
        assert forall|zp2: int, xp2: int|
            0 <= zp2 < divisions_z && 0 <= xp2 < divisions_x implies points@[flat_index(
            divisions_x as int,
            xp2,
            zp2,
        )] == (GridPoint { xp: xp2 as u32, zp: zp2 as u32 }) by {
            let i = flat_index(divisions_x as int, xp2, zp2);
            lemma_flat_index_in_grid(divisions_x as int, divisions_z as int, xp2, zp2);
            vstd::arithmetic::div_mod::lemma_fundamental_div_mod_converse(
                i,
                divisions_x as int,
                zp2,
                xp2,
            );
            assert(points@[i] == (GridPoint {
                xp: (i % (divisions_x as int)) as u32,
                zp: (i / (divisions_x as int)) as u32,
            }));
        }
    }
    Ok(points)
}

} // verus!
