//! The objects of a scene.

pub mod components;
pub mod entity;
pub mod objects;
pub mod systems;
