//! Terrain mesh generation from a height grid: a box filter over the samples,
//! vertex positions, triangle indices, checkerboard texture coordinates, the
//! cross-product terms of per-vertex normals, interleaved vertex records, and
//! the keyboard-driven view state of the viewer that renders the mesh. PNG
//! heightmaps are decoded with the `png` crate.
//!
//! Everything here is exact integer arithmetic. Positions are integer
//! coordinates in a unit chosen by the caller; the floating-point side of the
//! pipeline (normalising directions, uploading buffers) lives with the caller.

pub mod controls;
pub mod filter;
pub mod grid;
pub mod image;
pub mod interleave;
pub mod mesh;
pub mod normals;
pub mod terrain;

pub use controls::{
    compass_delta, Compass, Key, KeyAction, KeyOutcome, ViewState, Zoom, LIGHT_STEPS_MAX,
    LIGHT_STEPS_MIN, LIGHT_STEPS_START, SCALE_STEPS_MAX, SCALE_STEPS_START,
};
pub use filter::{box_filter_heightmap, fixed_heights, Smoothed, FIXED_ONE};
pub use grid::{GridError, HeightGrid};
pub use image::{height_grid_of, load_height_grid, load_png_image, DecodedImage, LoadError};
pub use interleave::{initialize_vnts, ShapeError, Vertex};
pub use mesh::{
    initialize_indices, initialize_texcoords, initialize_vertices, Point3, TexCoord, COORD_LIMIT,
};
pub use normals::{initialize_normals, Vector3};
pub use terrain::{build_terrain, TerrainMesh};
