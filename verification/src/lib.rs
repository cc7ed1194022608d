//! Data types of the Anagolay operations and workflows pallets,
//! with the validation rules that the chain applies to them.
pub mod operations;
pub mod support;
pub mod workflows;
