//! The bookkeeping of the shader pass: the size of its intermediate
//! textures and the running frame counter handed to the shader chain.
use vstd::prelude::*;

verus! {

/// The size of the shader's intermediate textures and the number of frames
/// the chain has processed (wrapping at `usize::MAX`).
pub struct ShaderGeometry {
    width: u32,
    height: u32,
    frame_count: usize,
}

impl ShaderGeometry {
    pub closed spec fn spec_width(&self) -> u32 {
        self.width
    }

    pub closed spec fn spec_height(&self) -> u32 {
        self.height
    }

    pub closed spec fn spec_frame_count(&self) -> usize {
        self.frame_count
    }

    /// Intermediates of the given size, before the first frame.
    pub fn new(width: u32, height: u32) -> (g: Self)
        ensures
            g.spec_width() == width,
            g.spec_height() == height,
            g.spec_frame_count() == 0,
    {
        ShaderGeometry { width, height, frame_count: 0 }
    }

    pub fn width(&self) -> (w: u32)
        ensures
            w == self.spec_width(),
    {
        self.width
    }

    pub fn height(&self) -> (h: u32)
        ensures
            h == self.spec_height(),
    {
        self.height
    }

    /// The frame number to hand to the shader chain.
    pub fn frame_count(&self) -> (n: usize)
        ensures
            n == self.spec_frame_count(),
    {
        self.frame_count
    }

    /// The intermediates must be recreated for an output of another size.
    pub open spec fn spec_needs_resize(&self, width: u32, height: u32) -> bool {
        !(self.spec_width() == width && self.spec_height() == height)
    }

    /// Whether the intermediates must be recreated for an output of the
    /// given size: exactly when the size differs.
    pub fn needs_resize(&self, width: u32, height: u32) -> (res: bool)
        ensures
            res == self.spec_needs_resize(width, height),
    {
        !(self.width == width && self.height == height)
    }

    /// Records that the intermediates now have the given size.
    pub fn set_size(&mut self, width: u32, height: u32)
        ensures
            final(self).spec_width() == width,
            final(self).spec_height() == height,
            final(self).spec_frame_count() == old(self).spec_frame_count(),
    {
        self.width = width;
        self.height = height;
    }

    /// Counts one processed frame, wrapping to zero after `usize::MAX`.
    pub fn advance_frame(&mut self)
        ensures
            final(self).spec_width() == old(self).spec_width(),
            final(self).spec_height() == old(self).spec_height(),
            final(self).spec_frame_count() == (if old(self).spec_frame_count() == usize::MAX {
                0
            } else {
                old(self).spec_frame_count() + 1
            }),
    {
        self.frame_count = self.frame_count.wrapping_add(1);
    }
}

/// Once the intermediates have been given a size, an output of that size
/// needs no resize, whatever the frame count.
pub proof fn law_resize_settles(g: ShaderGeometry, width: u32, height: u32)
    requires
        g.spec_width() == width,
        g.spec_height() == height,
    ensures
        !g.spec_needs_resize(width, height),
{
}

/// The intermediates are recreated exactly when the requested width or
/// height differs from the current one, whether the output grows or
/// shrinks.
pub proof fn law_needs_resize_iff_size_differs(g: ShaderGeometry, width: u32, height: u32)
    ensures
        g.spec_needs_resize(width, height) <==> (g.spec_width() != width || g.spec_height()
            != height),
{
}

} // verus!
