//! Resources as they are stored in files.

pub mod resource;
