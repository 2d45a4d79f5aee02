//! A batched immediate-mode renderer: shaders that buffer vertices and submit them in as few
//! draw calls as the order of drawing allows, a renderer that decides when they submit, and a
//! stack of composed transforms for nested drawing.
//!
//! The library touches no GPU. The renderer queues what is to be done on the GPU as
//! `back_end::GpuCommand`s, and the shaders record what they submit; the host takes both and
//! performs them in order. Numbers that the GPU reads as floats are held as their bit
//! patterns.

pub mod app_config;
pub mod back_end;
pub mod batching;
pub mod draw_state;
pub mod error;
pub mod shader_uniforms;
pub mod shader_utils;
pub mod storage;
pub mod transform;
pub mod version;
