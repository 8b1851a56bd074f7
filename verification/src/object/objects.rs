//! What a component can refer to.

use vstd::prelude::*;

verus! {

/// The kinds of light sources.
#[derive(Copy, Clone, Debug, PartialEq, Eq, Structural)]
pub enum ELightType {
    Directional,
    Point,
    Spot,
}

impl ELightType {
    pub open spec fn spec_code(self) -> u32 {
        match self {
            ELightType::Directional => 0,
            ELightType::Point => 1,
            ELightType::Spot => 2,
        }
    }

    /// The number that a shader knows this kind by.
    pub fn code(self) -> (code: u32)
        ensures
            code == self.spec_code(),
    {
        match self {
            ELightType::Directional => 0,
            ELightType::Point => 1,
            ELightType::Spot => 2,
        }
    }

    /// No two kinds share a number.
    pub proof fn lemma_code_injective(a: ELightType, b: ELightType)
        ensures
            a.spec_code() == b.spec_code() <==> a == b,
    {
    }
}

} // verus!
