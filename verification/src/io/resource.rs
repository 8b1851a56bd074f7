//! Meshes as they are read from files.
//!
//! The coordinates of a mesh are not looked into here, only counted, so their
//! types are parameters: `P` for a point or a normal in space, `U` for a
//! texture coordinate.

use vstd::prelude::*;
use vstd::string::StringExecFns;

verus! {

/// A resource that a file holds under a name.
pub trait TFileResource {
    spec fn spec_name(&self) -> Seq<char>;

    fn name(&self) -> (name: &str)
        ensures
            name@ == self.spec_name(),
    ;
}

/// One part of a mesh: vertices with their attributes, and the triangles
/// over them.
#[derive(Debug)]
pub struct RSubMesh<P, U> {
    pub name: String,
    pub positions: Vec<P>,
    pub normals: Vec<P>,
    pub uv0: Vec<U>,
    pub indices: Vec<u32>,
}

impl<P, U> TFileResource for RSubMesh<P, U> {
    open spec fn spec_name(&self) -> Seq<char> {
        self.name@
    }

    fn name(&self) -> (name: &str) {
        self.name.as_str()
    }
}

/// The first rule that a sub-mesh with these counts breaks, if it breaks one.
pub open spec fn first_broken_rule(positions: nat, normals: nat, uv0: nat, indices: nat) -> Option<
    Seq<char>,
> {
    if positions == 0 {
        Some("!self.positions.is_empty()"@)
    } else if positions != normals {
        Some("self.positions.len() == self.normals.len()"@)
    } else if positions != uv0 {
        Some("self.positions.len() == self.uv0.len()"@)
    } else if indices % 3 != 0 {
        Some("self.indices.len() % 3 == 0"@)
    } else if indices == 0 {
        Some("!self.indices.is_empty()"@)
    } else {
        None
    }
}

/// The text of a failed check of rule `rule`.
pub open spec fn failed_check(rule: Seq<char>) -> Seq<char> {
    "hoo_engine::io::resource: failed: "@ + rule
}

fn fail(rule: &str) -> (r: Result<(), String>)
    ensures
        r matches Err(msg) && msg@ == failed_check(rule@),
{
    let mut msg = String::from_str("hoo_engine::io::resource: failed: ");
    msg.append(rule);
    Err(msg)
}

impl<P, U> RSubMesh<P, U> {
    /// A sub-mesh is sound if it has vertices, as many normals and texture
    /// coordinates as positions, and its indices form whole triangles, at
    /// least one.  The error names the first rule that is broken.
    pub fn check(&self) -> (r: Result<(), String>)
        ensures
            match first_broken_rule(
                self.positions@.len(),
                self.normals@.len(),
                self.uv0@.len(),
                self.indices@.len(),
            ) {
                None => r is Ok,
                Some(rule) => r matches Err(msg) && msg@ == failed_check(rule),
            },
    {
        if self.positions.len() == 0 {
            return fail("!self.positions.is_empty()");
        }
        if self.positions.len() != self.normals.len() {
            return fail("self.positions.len() == self.normals.len()");
        }
        if self.positions.len() != self.uv0.len() {
            return fail("self.positions.len() == self.uv0.len()");
        }
        if self.indices.len() % 3 != 0 {
            return fail("self.indices.len() % 3 == 0");
        }
        if self.indices.len() == 0 {
            return fail("!self.indices.is_empty()");
        }
        Ok(())
    }
}

impl<P, U> Default for RSubMesh<P, U> {
    /// A sub-mesh without a name and without data.  It does not pass
    /// [`RSubMesh::check`].
    fn default() -> (mesh: Self)
        ensures
            mesh.name@ == Seq::<char>::empty(),
            mesh.positions@.len() == 0,
            mesh.normals@.len() == 0,
            mesh.uv0@.len() == 0,
            mesh.indices@.len() == 0,
    {
        RSubMesh {
            name: String::new(),
            positions: Vec::new(),
            normals: Vec::new(),
            uv0: Vec::new(),
            indices: Vec::new(),
        }
    }
}

/// A mesh: named, and made of sub-meshes.
#[derive(Debug)]
pub struct RMesh<P, U> {
    pub name: String,
    pub sub_meshes: Vec<RSubMesh<P, U>>,
}

impl<P, U> TFileResource for RMesh<P, U> {
    open spec fn spec_name(&self) -> Seq<char> {
        self.name@
    }

    fn name(&self) -> (name: &str) {
        self.name.as_str()
    }
}

impl<P, U> Default for RMesh<P, U> {
    /// A mesh without a name and without sub-meshes.
    fn default() -> (mesh: Self)
        ensures
            mesh.name@ == Seq::<char>::empty(),
            mesh.sub_meshes@.len() == 0,
    {
        RMesh { name: String::new(), sub_meshes: Vec::new() }
    }
}

} // verus!
