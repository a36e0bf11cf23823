//! Frame synchronisation and swapchain lifecycle for an explicit graphics API.
//!
//! The library decides; the program around it performs. Every function here
//! works on plain values (raw handle numbers, format codes, flag bits) and
//! returns the device commands that have to be carried out, in order.

pub mod api;
pub mod command;
pub mod device;
pub mod format;
pub mod gpu;
pub mod graphics;
pub mod handle;
pub mod image;
pub mod laws;
pub mod objects;
pub mod pass;
pub mod physical;
pub mod plan;
pub mod sample;
pub mod shader;
pub mod structs;
pub mod swap;
pub mod sync;
pub mod texture;
pub mod timeline;
