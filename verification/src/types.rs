//! The value types that the codec works on.

pub mod field_element;
pub mod u256;

pub use field_element::{FieldElement, FromStrError};
pub use u256::U256;
