//! Helpers for filling Direct3D 12 resources from CPU memory.
//!
//! The crate holds the decisions of the upload path: whether a transfer can
//! be carried out, where each subresource lands in a staging buffer, which
//! bytes are copied there, and which copy commands move them on to the
//! destination. It also builds the descriptions of heaps, resources, barriers
//! and pipeline state that go with it.
//!
//! The library makes no call into the graphics API. Of the `windows` crate it
//! reads constants only. A caller performs each outside step that the library
//! asks for and hands back what came of it; see the module `upload`.
//!
//! The library does not see the GPU. After the copy commands of an upload are
//! recorded, the staging buffer must stay alive and unwritten until the GPU
//! has carried the commands out. To wait for that is the caller's part.

pub mod buffers;
pub mod commands;
mod d3d12;
pub mod desc;
pub mod footprint;
pub mod frame;
pub mod laws;
pub mod memcpy;
pub mod staging;
pub mod upload;
