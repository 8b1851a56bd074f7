//! Marshaling between native values and scripting values.

pub mod basic_types;
pub mod calls;
pub mod compound_types;
pub mod objects;
pub mod text;
pub mod types;
