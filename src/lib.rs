//! Frame-loop logic for a small GPU renderer: surface lifecycle, render-pass
//! recording plans, vertex/instance buffer layouts, procedural geometry,
//! texture upload descriptions and input routing.
//!
//! Everything here works on plain values; the host program owns the GPU
//! device, the window and the event loop, and carries out what these
//! functions decide.

pub mod frame;
pub mod geometry;
pub mod input;
pub mod layout;
pub mod pipeline;
pub mod selection;
pub mod surface;
pub mod texture;
