use vstd::prelude::*;

verus! {

/// A named output shape. Each variant has a fixed bounding box that a
/// generated image must fit within.
#[derive(Debug, Clone, Copy, PartialEq, Eq, Structural)]
pub enum Variant {
    Original,
    Thumbnail,
    Avatar,
}

impl Variant {
    /// Width and height of the bounding box, in pixels.
    pub open spec fn bounds(self) -> (u32, u32) {
        match self {
            Variant::Original => (800u32, 800u32),
            Variant::Thumbnail => (300u32, 300u32),
            Variant::Avatar => (125u32, 125u32),
        }
    }

    /// Width and height of the bounding box, in pixels.
    pub fn bounding_box(&self) -> (size: (u32, u32))
        ensures
            size == self.bounds(),
    {
        match self {
            Variant::Original => (800, 800),
            Variant::Thumbnail => (300, 300),
            Variant::Avatar => (125, 125),
        }
    }
}

} // verus!
