//! A validated, interned identifier for the components of a message-driven system.

pub mod component_id;
pub mod correctness;
pub mod interning;
pub mod ordering;

pub use component_id::ComponentId;
pub use correctness::{ValidationError, ValidationErrorKind};
