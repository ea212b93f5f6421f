//! Streaming sessions and what they are built from.

pub mod chunk;
pub mod driver;
pub mod engine;
pub mod model;
pub mod paraformer;
pub mod session;
pub mod stream;
pub mod transducer;
pub mod zipformer2_ctc;
