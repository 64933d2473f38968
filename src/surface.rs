use vstd::prelude::*;

use crate::constants::{MIN_HEIGHT, MIN_WIDTH};

verus! {

/// Declares the GPU's pixel format so that a configuration can carry it.
#[verifier::external_type_specification]
#[verifier::external_body]
pub struct ExTextureFormat(wgpu::TextureFormat);

/// Size of a window's drawable area, in physical pixels.
#[derive(Clone, Copy, Debug, PartialEq, Eq, Structural)]
pub struct Size {
    pub width: u32,
    pub height: u32,
}

impl Size {
    /// A size is large enough to draw to when both sides exceed the minimum.
    pub open spec fn is_drawable(self) -> bool {
        self.width > MIN_WIDTH && self.height > MIN_HEIGHT
    }

    pub fn new(width: u32, height: u32) -> (r: Size)
        ensures
            r.width == width,
            r.height == height,
    {
        Size { width, height }
    }

    /// Whether both sides exceed the minimum.
    pub fn is_drawable_size(&self) -> (r: bool)
        ensures
            r == self.is_drawable(),
    {
        self.width > MIN_WIDTH && self.height > MIN_HEIGHT
    }
}

/// How finished frames are handed to the display.
#[derive(Clone, Copy, Debug, PartialEq, Eq, Structural)]
pub enum PresentMode {
    AutoVsync,
    AutoNoVsync,
    /// Frames wait for the display's refresh: the rate is capped at it.
    Fifo,
    FifoRelaxed,
    Immediate,
    Mailbox,
}

/// How the surface creates the textures that frames are drawn into.
#[derive(Clone, Copy, Debug)]
pub struct SurfaceConfig {
    pub format: wgpu::TextureFormat,
    pub width: u32,
    pub height: u32,
    pub present_mode: PresentMode,
}

impl SurfaceConfig {
    /// The configuration for a window of `size` on a surface that supports
    /// `formats`, the preferred one first: that first format, presented in
    /// step with the display. `None` when the surface supports no format.
    pub fn new(size: Size, formats: &Vec<wgpu::TextureFormat>) -> (r: Option<SurfaceConfig>)
        ensures
            formats@.len() == 0 <==> r.is_none(),
            r matches Some(c) ==> {
                &&& c.format == formats@[0]
                &&& c.width == size.width
                &&& c.height == size.height
                &&& c.present_mode == PresentMode::Fifo
            },
    {
        if formats.len() == 0 {
            None
        } else {
            Some(SurfaceConfig {
                format: formats[0],
                width: size.width,
                height: size.height,
                present_mode: PresentMode::Fifo,
            })
        }
    }

    /// The size of the textures.
    pub fn size(&self) -> (r: Size)
        ensures
            r.width == self.width,
            r.height == self.height,
    {
        Size { width: self.width, height: self.height }
    }
}

} // verus!
