//! Bookkeeping for the caller-owned GL texture a capture session renders
//! into.
//!
//! The texture object itself — its handle, its GL storage and every GL
//! call — belongs to the process shell; the record here tracks the
//! storage shape the texture is supposed to have, so that a resize
//! reallocates only when the size actually changed.

use vstd::prelude::*;

verus! {

/// GL texture target for two-dimensional images.
pub const GL_TEXTURE_2D: u32 = 0x0DE1;

/// Default internal format of a session texture.
pub const GL_SRGB8_ALPHA8: i32 = 0x8C43;

/// The storage shape of one caller-owned texture.
#[derive(Clone, Copy, Debug, PartialEq, Eq, Structural)]
pub struct GlTexture {
    pub handle: u32,
    pub width: u32,
    pub height: u32,
    pub format: i32,
    pub target: u32,
}

impl GlTexture {
    /// Adopts an existing texture handle with a known size.
    pub fn from_handle(handle: u32, width: u32, height: u32) -> (r: GlTexture)
        ensures
            r == (GlTexture {
                handle,
                width,
                height,
                format: GL_SRGB8_ALPHA8,
                target: GL_TEXTURE_2D,
            }),
    {
        GlTexture { handle, width, height, format: GL_SRGB8_ALPHA8, target: GL_TEXTURE_2D }
    }

    /// Records the empty storage allocation the shell performs for this
    /// texture: the new size and internal format.
    pub fn allocate_empty(&mut self, width: u32, height: u32, format: i32)
        ensures
            *final(self) == (GlTexture { width, height, format, ..*old(self) }),
    {
        self.width = width;
        self.height = height;
        self.format = format;
    }

    /// Resizes the texture's storage: a size it already has is kept
    /// as it is, anything else is reallocated empty under the current
    /// format.
    pub fn resize(&mut self, width: u32, height: u32)
        ensures
            old(self).width == width && old(self).height == height ==> *final(self) == *old(self),
            old(self).width != width || old(self).height != height ==> *final(self) == (GlTexture {
                width,
                height,
                ..*old(self)
            }),
    {
        if self.width == width && self.height == height {
            return;
        }
        let format = self.format;
        self.allocate_empty(width, height, format);
    }
}

} // verus!
