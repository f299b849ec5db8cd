//! The logic of a small 3D game engine: its game-state machine, input handling, the
//! turning of Wavefront OBJ/MTL sets into indexed meshes, material and shading choices,
//! bitmap-font layout, the developer console, and the decisions of the game's states.
//!
//! Floating-point values (coordinates, colors) pass through as their bit patterns; the
//! floating-point math itself (cameras, projections) and all I/O, windowing and GPU work
//! are left to the application around the library.
pub mod asset_loader;
pub mod assets;
pub mod camera;
pub mod float_bits;
pub mod game;
pub mod game_state;
pub mod graphics;
pub mod input;
pub mod state;
pub mod ui;
pub mod wavefront;
pub mod wavefront_text;
