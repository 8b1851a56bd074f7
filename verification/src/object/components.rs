//! The kinds of components that an entity can have.

use crate::hoo_object::RcObject;
use vstd::prelude::*;

verus! {

pub const COMPONENT_ID_STATIC_MODEL: u32 = 0;

pub const COMPONENT_ID_TRANSFORM: u32 = 1;

pub const COMPONENT_ID_CAMERA: u32 = 2;

pub const COMPONENT_ID_LIGHT: u32 = 3;

pub const COMPONENT_ID_AXIS: u32 = 4;

/// A component says of what kind it is.
pub trait TComponent {
    spec fn spec_component_name(&self) -> Seq<char>;

    fn component_name(&self) -> (name: &'static str)
        ensures
            name@ == self.spec_component_name(),
    ;
}

/// The component that gives an entity a mesh to draw.  What a mesh is, is
/// the renderer's business: `M` is its type.
#[verifier::reject_recursive_types(M)]
pub struct HStaticModelComponent<M: 'static> {
    pub mesh: RcObject<M>,
}

impl<M: 'static> TComponent for HStaticModelComponent<M> {
    open spec fn spec_component_name(&self) -> Seq<char> {
        "HooEngine.HStaticModelComponent"@
    }

    fn component_name(&self) -> (name: &'static str) {
        "HooEngine.HStaticModelComponent"
    }
}

/// The component that marks an entity as the axis gizmo.
pub struct HAxisComponent {}

} // verus!
