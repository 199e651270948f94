//! Decision logic of a guild companion service: randomized icon rotation
//! over two image pools, and channel access that follows voice presence.

pub mod error;
pub mod delay;
pub mod access;
pub mod names;
pub mod listing;
pub mod relocation;
pub mod recycle;
pub mod rotation;
pub mod scheduler;
pub mod alerts;
pub mod settings;
