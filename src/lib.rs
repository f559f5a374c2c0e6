//! Shared, grow-only buffer pair for order-independent transparency.
//!
//! The layer-index buffer holds one slot per pixel and the layer-storage
//! buffer one record per pixel per layer. Both are sized to the largest
//! demand of any camera and are never shrunk.
pub mod buffer;
pub mod demand;
pub mod pool;

pub use buffer::GrowableBuffer;
pub use demand::{oit_demand, CameraRecord, OitDemand, OrderIndependentTransparencySettings};
pub use pool::{grow_buffer, prepare_oit_buffers, OitBuffers, OitGrowth};
