//! Encoding of program values as sequences of field elements, the only unit
//! that a contract call can carry.

pub mod codec;
pub mod types;
