//! Coordination core of an off-screen map renderer: the ready-state latch,
//! the dual-affinity task scheduler, the resource loader's decisions, the
//! bounded capture loop and the tile-layer configuration.
//!
//! Everything here is sequential and free of I/O. A front end owns the
//! threads, the network, the disk and the graphics context; it performs the
//! actions that the functions of this crate hand out and reports back what
//! happened.
#![allow(non_snake_case)]

pub mod coords;
pub mod frame;
pub mod loader;
pub mod openstreetmap;
pub mod ready_state;
pub mod render;
pub mod scheduler;
pub mod setup;
pub mod text;
pub mod texture;
