//! Throughput measurement for byte streams: unit scaling, rate text and a
//! once-per-second sampler.

pub mod text;
pub mod unit;
pub mod sampler;
