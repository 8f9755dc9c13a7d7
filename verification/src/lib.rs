//! Procedural terrain surface core: a row-major vertex grid, triangle-strip
//! index generation over adjacent row pairs, and packaging of positions,
//! flat normals and strip indices into renderable mesh data.

pub mod error;
pub mod grid;
pub mod mesh;
pub mod strips;

pub use error::TerrainError;
pub use grid::GridPoint;
pub use grid::generate_terrain_grid_points;
pub use mesh::MeshTopology;
pub use mesh::Normal;
pub use mesh::TerrainMesh;
pub use mesh::compute_normals;
pub use mesh::generate_terrain_mesh_strips;
pub use strips::generate_terrain_triangle_strips_from_vertices;
