//! The GL device layer of a renderer: the bookkeeping of textures, programs
//! and vertex arrays, the cache of what is bound, and the exact sequence of
//! GL commands that each device operation issues.
//!
//! The library never talks to a GL context itself. Every operation updates
//! the device's state and hands back the list of [`command::GlCommand`]s
//! that the embedder replays against its context, in order. Values that only
//! the context can produce (generated object names, uniform locations, the
//! framebuffer bound when a frame begins) are passed in as arguments.

mod fnv_map;

pub mod command;
pub mod device;
pub mod gl_laws;
pub mod gl_model;
pub mod laws;
pub mod state;
pub mod types;
pub mod vertex;
