//! A small rendering engine's decision logic: the surface configuration, the
//! application's event state machine and frame clock, render-pipeline
//! descriptions, the commands a render pass receives, and the assembly of mesh
//! data for upload to the GPU.

pub mod mesh;
pub mod pass;
pub mod pipeline;
pub mod runner;
pub mod surface;
