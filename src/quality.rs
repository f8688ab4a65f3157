use vstd::prelude::*;

verus! {

/// Preset render quality: each level fixes the output resolution and the
/// maximum recursion depth of the ray tracer.
#[derive(Clone, Copy, Debug, PartialEq, Eq, Structural)]
pub enum RenderQuality {
    Low,
    Medium,
    High,
}

impl RenderQuality {
    /// Width and height in pixels of the image rendered at this quality.
    pub open spec fn spec_dimensions(self) -> (u32, u32) {
        match self {
            RenderQuality::Low => (400, 300),
            RenderQuality::Medium => (600, 450),
            RenderQuality::High => (800, 600),
        }
    }

    /// Maximum recursion depth of a traced ray at this quality.
    pub open spec fn spec_max_depth(self) -> i32 {
        match self {
            RenderQuality::Low => 3,
            RenderQuality::Medium => 4,
            RenderQuality::High => 5,
        }
    }

    pub fn dimensions(&self) -> (r: (u32, u32))
        ensures
            r == self.spec_dimensions(),
    {
        match self {
            RenderQuality::Low => (400, 300),
            RenderQuality::Medium => (600, 450),
            RenderQuality::High => (800, 600),
        }
    }

    pub fn max_depth(&self) -> (r: i32)
        ensures
            r == self.spec_max_depth(),
    {
        match self {
            RenderQuality::Low => 3,
            RenderQuality::Medium => 4,
            RenderQuality::High => 5,
        }
    }

    /// Human-readable label of the level, with its resolution.
    pub fn description(&self) -> (r: &'static str)
        ensures
            r@ == self.spec_description(),
    {
        match self {
            RenderQuality::Low => "Baja (400x300)",
            RenderQuality::Medium => "Media (600x450)",
            RenderQuality::High => "Alta (800x600)",
        }
    }

    pub open spec fn spec_description(self) -> Seq<char> {
        match self {
            RenderQuality::Low => "Baja (400x300)"@,
            RenderQuality::Medium => "Media (600x450)"@,
            RenderQuality::High => "Alta (800x600)"@,
        }
    }
}

} // verus!
