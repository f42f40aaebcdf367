//! A client library for the EtherDream laser-projector DAC: the wire codec,
//! the point model and the streaming session engine that decides, response by
//! response, what to send next.

pub mod discovery;
pub mod engine;
pub mod error;
pub mod points;
pub mod protocol;
pub mod wire;

pub use error::EtherdreamError;
