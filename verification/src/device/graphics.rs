//! Descriptions of graphics resources.

pub mod resource;
