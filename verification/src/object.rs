//! The part of the scene that the renderer has to know: how a material scatters.

use vstd::prelude::*;

verus! {

/// How a material scatters light.
#[derive(Debug, Clone, Copy, PartialEq, Eq, Structural)]
pub enum MaterialType {
    Lambertian,
    Metal,
    Dielectric,
}

impl MaterialType {
    /// The number that shaders know the type by.
    pub open spec fn spec_code(self) -> u32 {
        match self {
            MaterialType::Lambertian => 0,
            MaterialType::Metal => 1,
            MaterialType::Dielectric => 2,
        }
    }

    /// The number that shaders know the type by.
    #[verifier::when_used_as_spec(spec_code)]
    pub fn code(self) -> (code: u32)
        ensures
            code == self.spec_code(),
    {
        match self {
            MaterialType::Lambertian => 0,
            MaterialType::Metal => 1,
            MaterialType::Dielectric => 2,
        }
    }

    /// The four bytes that a storage buffer holds for the type: its number,
    /// lowest byte first.
    pub fn as_std430(self) -> (bytes: [u8; 4])
        ensures
            bytes@ == seq![self.spec_code() as u8, 0u8, 0u8, 0u8],
    {
        let code: u8 = match self {
            MaterialType::Lambertian => 0,
            MaterialType::Metal => 1,
            MaterialType::Dielectric => 2,
        };
        let bytes: [u8; 4] = [code, 0, 0, 0];
        assert(bytes@ =~= seq![self.spec_code() as u8, 0u8, 0u8, 0u8]);
        bytes
    }
}

impl Default for MaterialType {
    fn default() -> (ty: Self)
        ensures
            ty == MaterialType::Lambertian,
    {
        MaterialType::Lambertian
    }
}

} // verus!
