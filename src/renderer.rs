//! The drawable size the renderer targets.
use vstd::prelude::*;

verus! {

#[derive(Default)]
pub struct Renderer {
    pub width: u32,
    pub height: u32,
}

impl Renderer {
    /// Targets a drawable of `width` by `height`.
    pub fn resize(&mut self, width: u32, height: u32)
        ensures
            final(self).width == width,
            final(self).height == height,
    {
        self.width = width;
        self.height = height;
    }
}

} // verus!
