//! A large shared grid of on/off cells: bit-level storage, change batching and
//! snapshot encoding, with machine-checked contracts.

pub mod bit_utils;
pub mod grid;
pub mod grid1;
pub mod fine_grained;
pub mod state;
pub mod codec;
pub mod raster;
pub mod broadcast;
pub mod config;
pub mod ws;
pub mod server;
