//! Bridges natively owned objects and the values of an embedded scripting
//! runtime: identities, shared handles, the registry that ties a handle to its
//! scripting-side proxy, and the decisions taken at every call boundary.
//! Beside that bridge stand the plain rules of the engine's resources and
//! entities.

pub mod device;
pub mod hoo_meta;
pub mod hoo_object;
pub mod io;
pub mod object;
