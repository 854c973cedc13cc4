//! A cross-thread GPU-resource broker: duplex channels, a lease-tracked
//! texture pool, the worker's state machine, the producer's frame cycle and
//! the render dispatcher.

pub mod bidir;
pub mod broker;
pub mod context;
pub mod error;
pub mod gstrender;
pub mod lut;
pub mod pool;
pub mod producer;
pub mod sizing;
pub mod texture;
pub mod uploader;
