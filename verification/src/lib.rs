//! Staging of per-instance vertex data for a GPU renderer: instance pools that
//! pack batches into vertex buffers, vertex data textures, and the vertex array
//! contexts that tie buffer layouts to pools.

pub mod batch;
pub mod context;
pub mod data;
pub mod desc;
pub mod device;
pub mod hub;
pub mod layouts;
pub mod path;
pub mod pool;
pub mod pool_model;
pub mod texture;
pub mod units;
