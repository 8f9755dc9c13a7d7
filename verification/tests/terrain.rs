use terrain_mesh::GridPoint;
use terrain_mesh::MeshTopology;
use terrain_mesh::Normal;
use terrain_mesh::TerrainError;
use terrain_mesh::compute_normals;
use terrain_mesh::generate_terrain_grid_points;
use terrain_mesh::generate_terrain_mesh_strips;
use terrain_mesh::generate_terrain_triangle_strips_from_vertices;

fn up() -> Normal {
    Normal { x: 0, y: 1, z: 0 }
}

#[test]
fn strips_four_by_four_scenario() {
    let strips = generate_terrain_triangle_strips_from_vertices(4, 4).unwrap();
    assert_eq!(strips.len(), 3);
    for strip in &strips {
        assert_eq!(strip.len(), 8);
    }
    assert_eq!(strips[0], vec![0, 4, 1, 5, 2, 6, 3, 7]);
    assert_eq!(strips[2], vec![8, 12, 9, 13, 10, 14, 11, 15]);
}

#[test]
fn strips_count_length_and_bounds() {
    let divisions_x: u32 = 4;
    let divisions_z: u32 = 6;
    let strips = generate_terrain_triangle_strips_from_vertices(divisions_x, divisions_z).unwrap();
    assert_eq!(strips.len(), (divisions_z - 1) as usize);
    for strip in &strips {
        assert_eq!(strip.len(), (2 * divisions_x) as usize);
        for &index in strip {
            assert!(index < divisions_x * divisions_z);
        }
    }
}

#[test]
fn strips_interleave_top_and_bottom_rows() {
    let strips = generate_terrain_triangle_strips_from_vertices(5, 3).unwrap();
    for (s, strip) in strips.iter().enumerate() {
        let top_row_start = s as u32 * 5;
        let bottom_row_start = (s as u32 + 1) * 5;
        for c in 0..5u32 {
            assert_eq!(strip[(2 * c) as usize], top_row_start + c);
            assert_eq!(strip[(2 * c + 1) as usize], bottom_row_start + c);
        }
    }
}

#[test]
fn strips_single_row_yields_no_strips() {
    let strips = generate_terrain_triangle_strips_from_vertices(7, 1).unwrap();
    assert_eq!(strips.len(), 0);
}

#[test]
fn strips_reject_degenerate_divisions() {
    assert_eq!(
        generate_terrain_triangle_strips_from_vertices(0, 4),
        Err(TerrainError::InvalidGrid)
    );
    assert_eq!(
        generate_terrain_triangle_strips_from_vertices(4, 0),
        Err(TerrainError::InvalidGrid)
    );
}

#[test]
fn grid_points_row_major_layout() {
    let divisions_x: u32 = 5;
    let divisions_z: u32 = 3;
    let points = generate_terrain_grid_points(divisions_x, divisions_z).unwrap();
    assert_eq!(points.len(), (divisions_x * divisions_z) as usize);
    for zp in 0..divisions_z {
        for xp in 0..divisions_x {
            let flat = (zp * divisions_x + xp) as usize;
            assert_eq!(points[flat], GridPoint { xp, zp });
        }
    }
}

#[test]
fn grid_two_by_two_scenario() {
    let points = generate_terrain_grid_points(2, 2).unwrap();
    assert_eq!(points.len(), 4);
    assert_eq!(points[0], GridPoint { xp: 0, zp: 0 });
    assert_eq!(points[1], GridPoint { xp: 1, zp: 0 });
    assert_eq!(points[2], GridPoint { xp: 0, zp: 1 });
    assert_eq!(points[3], GridPoint { xp: 1, zp: 1 });
    // Scaled by a world size of 100 over 2 divisions, with a flat height,
    // these are the world positions (0,0,0), (50,0,0), (0,0,50), (50,0,50).
    let size: f32 = 100.0;
    let world: Vec<(f32, f32, f32)> = points
        .iter()
        .map(|p| {
            (
                size * p.xp as f32 / 2.0,
                0.0,
                p.zp as f32 * size / 2.0,
            )
        })
        .collect();
    assert_eq!(
        world,
        vec![(0.0, 0.0, 0.0), (50.0, 0.0, 0.0), (0.0, 0.0, 50.0), (50.0, 0.0, 50.0)]
    );
}

#[test]
fn grid_rejects_degenerate_divisions() {
    assert_eq!(generate_terrain_grid_points(0, 3), Err(TerrainError::InvalidGrid));
    assert_eq!(generate_terrain_grid_points(3, 0), Err(TerrainError::InvalidGrid));
}

#[test]
fn strip_indices_stay_within_vertex_buffer() {
    for &(divisions_x, divisions_z) in
        &[(1u32, 1u32), (1, 2), (2, 1), (2, 2), (4, 4), (3, 7), (16, 5), (1, 9)]
    {
        let points = generate_terrain_grid_points(divisions_x, divisions_z).unwrap();
        let strips =
            generate_terrain_triangle_strips_from_vertices(divisions_x, divisions_z).unwrap();
        for strip in &strips {
            for &index in strip {
                // Indexing must never reach out of bounds.
                let point = points[index as usize];
                assert!(point.xp < divisions_x && point.zp < divisions_z);
            }
        }
    }
}

#[test]
fn normals_match_vertex_count_and_point_up() {
    let coordinates: Vec<(f32, f32, f32)> =
        vec![(0.0, 1.5, 0.0), (2.0, -0.5, 0.0), (0.0, 3.0, 2.0)];
    let indices: Vec<u32> = vec![0, 2, 1];
    let normals = compute_normals(&coordinates, &indices);
    assert_eq!(normals.len(), coordinates.len());
    for normal in &normals {
        assert_eq!(*normal, up());
    }
}

#[test]
fn mesh_strips_bundle_positions_normals_and_indices() {
    let divisions_x: u32 = 3;
    let divisions_z: u32 = 3;
    let points = generate_terrain_grid_points(divisions_x, divisions_z).unwrap();
    let coordinates: Vec<(f32, f32, f32)> = points
        .iter()
        .map(|p| (p.xp as f32 * 10.0, 0.25, p.zp as f32 * 10.0))
        .collect();
    let strips =
        generate_terrain_triangle_strips_from_vertices(divisions_x, divisions_z).unwrap();
    let meshes = generate_terrain_mesh_strips(&coordinates, &strips).unwrap();
    assert_eq!(meshes.len(), strips.len());
    for (i, mesh) in meshes.iter().enumerate() {
        assert_eq!(mesh.positions, coordinates);
        assert_eq!(mesh.normals.len(), coordinates.len());
        for normal in &mesh.normals {
            assert_eq!(*normal, up());
        }
        assert_eq!(mesh.indices, strips[i]);
        assert_eq!(mesh.topology, MeshTopology::TriangleStrip);
    }
}

#[test]
fn mesh_strips_of_empty_strip_list() {
    let coordinates: Vec<(f32, f32, f32)> = vec![(0.0, 0.0, 0.0)];
    let strips: Vec<Vec<u32>> = Vec::new();
    let meshes = generate_terrain_mesh_strips(&coordinates, &strips).unwrap();
    assert_eq!(meshes.len(), 0);
}
