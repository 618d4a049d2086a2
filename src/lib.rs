//! Rendering support: building a two-stage GPU program, the orientation of
//! a free-look camera, and drawable meshes.
//!
//! The graphics calls themselves are left to the caller. The library decides
//! what they are given and what follows from what they report: which objects
//! a failed program build releases and which error it returns, the exact
//! command sequence that draws a mesh, and the clamped camera angles.

pub mod camera;
pub mod mesh;
pub mod shader;
