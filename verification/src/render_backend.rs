//! The rendering backends an overlay can be drawn with.
use vstd::prelude::*;

verus! {

#[derive(Debug, Clone, Copy, PartialEq, Eq, Structural)]
pub enum RenderBackendType {
    OpenGL,
    Vulkan,
}

impl RenderBackendType {
    /// The backend's display name, as text.
    pub open spec fn spec_name(self) -> Seq<char> {
        match self {
            RenderBackendType::OpenGL => "OpenGL"@,
            RenderBackendType::Vulkan => "Vulkan"@,
        }
    }

    pub fn name(&self) -> (r: &'static str)
        ensures
            r@ == self.spec_name(),
    {
        match self {
            RenderBackendType::OpenGL => "OpenGL",
            RenderBackendType::Vulkan => "Vulkan",
        }
    }
}

} // verus!
