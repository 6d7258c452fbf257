//! Render targets and the double-buffered target pair.
//!
//! A render target models one GPU-sampleable color image: its size, its
//! pixel format, and a crate-unique id that the GPU layer maps to the
//! actual texture. Reallocation hands out fresh ids, so a stale image can
//! never be confused with a current one. The pair holds two equally-sized
//! targets whose source/dest roles swap in O(1) with no copy.

use vstd::prelude::*;

verus! {

/// Color format of a render target, chosen by the caller at construction
/// and shared by every image the engine owns.
#[derive(Clone, Copy, Debug, PartialEq, Eq, Structural)]
pub enum PixelFormat {
    /// 8-bit BGRA, sRGB encoded.
    Bgra8UnormSrgb,
    /// 8-bit RGBA, sRGB encoded.
    Rgba8UnormSrgb,
    /// 8-bit BGRA, linear.
    Bgra8Unorm,
    /// 8-bit RGBA, linear.
    Rgba8Unorm,
}

/// Hands out crate-unique image ids, strictly increasing.
#[derive(Clone, Copy, Debug, PartialEq, Eq, Structural)]
pub struct IdAlloc {
    /// The next id to hand out; every id already issued is below it.
    pub next: u64,
}

impl IdAlloc {
    /// A fresh allocator; ids start at zero.
    pub fn new() -> (r: IdAlloc)
        ensures
            r.next == 0,
    {
        IdAlloc { next: 0 }
    }

    /// Issue the next id.
    pub fn fresh(&mut self) -> (id: u64)
        requires
            old(self).next < u64::MAX,
        ensures
            id == old(self).next,
            final(self).next == id + 1,
    {
        let id = self.next;
        self.next = self.next + 1;
        id
    }
}

/// One GPU-sampleable color image: fixed size and format, identified by a
/// crate-unique id. Contents are discarded, never preserved, when the
/// owner reallocates on resize.
#[derive(Clone, Copy, Debug, PartialEq, Eq, Structural)]
pub struct RenderTarget {
    /// Crate-unique image id; the GPU layer maps it to the texture.
    pub id: u64,
    /// Width in pixels.
    pub width: u32,
    /// Height in pixels.
    pub height: u32,
    /// Pixel format.
    pub format: PixelFormat,
}

impl RenderTarget {
    /// Allocate a target of the given size and format under a fresh id.
    pub fn new(ids: &mut IdAlloc, width: u32, height: u32, format: PixelFormat) -> (r:
        RenderTarget)
        requires
            old(ids).next < u64::MAX,
        ensures
            r.id == old(ids).next,
            final(ids).next == r.id + 1,
            r.width == width,
            r.height == height,
            r.format == format,
    {
        RenderTarget { id: ids.fresh(), width, height, format }
    }
}

/// Two equally-sized render targets, one read this frame ("source") and
/// one written ("dest"); swapping the roles is a metadata flip.
#[derive(Clone, Copy, Debug, PartialEq, Eq, Structural)]
pub struct SwapBufferPair {
    /// The image read this frame.
    pub source: RenderTarget,
    /// The image written this frame.
    pub dest: RenderTarget,
    /// Shared format of both images.
    pub format: PixelFormat,
}

impl SwapBufferPair {
    /// Both halves share size and format and are distinct images.
    pub open spec fn wf(self) -> bool {
        &&& self.source.width == self.dest.width
        &&& self.source.height == self.dest.height
        &&& self.source.format == self.format
        &&& self.dest.format == self.format
        &&& self.source.id != self.dest.id
    }

    /// Allocate both halves at the given size, under fresh ids.
    pub fn new(ids: &mut IdAlloc, width: u32, height: u32, format: PixelFormat) -> (r:
        SwapBufferPair)
        requires
            old(ids).next + 2 <= u64::MAX,
        ensures
            r.wf(),
            r.source.width == width,
            r.source.height == height,
            r.dest.width == width,
            r.dest.height == height,
            r.format == format,
            old(ids).next <= r.source.id < final(ids).next,
            old(ids).next <= r.dest.id < final(ids).next,
            final(ids).next == old(ids).next + 2,
    {
        SwapBufferPair {
            source: RenderTarget::new(ids, width, height, format),
            dest: RenderTarget::new(ids, width, height, format),
            format,
        }
    }

    /// Exchange the source and dest roles; no image data moves.
    pub fn swap(&mut self)
        ensures
            final(self).source == old(self).dest,
            final(self).dest == old(self).source,
            final(self).format == old(self).format,
    {
        let s = self.source;
        self.source = self.dest;
        self.dest = s;
    }

    /// Discard both images and reallocate them at the new size, under
    /// fresh ids; callers must not assume any contents survive.
    pub fn resize(&mut self, ids: &mut IdAlloc, width: u32, height: u32)
        requires
            old(ids).next + 2 <= u64::MAX,
        ensures
            final(self).wf(),
            final(self).format == old(self).format,
            final(self).source.width == width,
            final(self).source.height == height,
            final(self).dest.width == width,
            final(self).dest.height == height,
            old(ids).next <= final(self).source.id < final(ids).next,
            old(ids).next <= final(self).dest.id < final(ids).next,
            final(ids).next == old(ids).next + 2,
    {
        self.source = RenderTarget::new(ids, width, height, self.format);
        self.dest = RenderTarget::new(ids, width, height, self.format);
    }
}

} // verus!
