//! Asynchronous resource loading and per-target frame resource caching for a
//! real-time renderer.
//!
//! Loads move through a disk stage, a CPU stage and a GPU upload; the state
//! machines here decide every transition and never block, while worker
//! threads, files and the graphics API stay with the caller. Per-target GPU
//! objects (framebuffers, G-buffers, temporal history, per-draw binding sets)
//! are named by identity tokens and rebuilt only when their target changes.
//! The CPU stages for the binary mesh format, OBJ faces and PNG/TGA textures
//! live here too.

pub mod ident;
pub mod model;
pub mod task;
pub mod load;
pub mod framebuffer;
pub mod gbuffer;
pub mod binding;
pub mod pool;
pub mod event;
pub mod obj;
pub mod driver;
pub mod present;
pub mod texture;
pub mod device;
