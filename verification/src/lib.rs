//! Verified core of a vector-image tessellation pipeline.
//!
//! A scene of filled and stroked shapes is triangulated shape by shape; each
//! shape yields a [`vertex_buffer::VertexBuffers`] pair (vertex list, index
//! list). The merge engine combines those pairs into a single pair while
//! re-basing every index, the assembler turns the result into a renderable
//! triangle-list [`mesh::Mesh`], and the loader derives the document's name
//! and drives the two stages.
//!
//! Coordinates and color channels are 32-bit float values carried as their
//! IEEE-754 bit patterns: the core never does arithmetic on them, so holding
//! the raw bits keeps every statement about them exact.

pub mod loader;
pub mod mesh;
pub mod vertex_buffer;
