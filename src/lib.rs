//! Simulation core of a space-combat world: per-entity subsystems, the
//! authoritative engine that ticks them, and the local and remote
//! connection state machines that a render loop drives.
//!
//! Continuous quantities are fixed-point integers:
//! positions, radii and world extents are in micro-units (a millionth of a
//! world unit), speeds in whole world units per second, time in microseconds,
//! and shell health in milli-points (a thousandth of a hit point).
pub mod geometry;
pub mod data_types;
pub mod engine;
pub mod server_manager;
pub mod transport;
pub mod server_client;
pub mod scene;
pub mod camera;
pub mod events;
pub mod laws;
