//! The pass chain and what it shares: the viewport, the surface, the profiler.

use vstd::prelude::*;
use crate::render::texture::TextureFormat;

pub mod chain;
pub mod display;
pub mod final_pass;
pub mod lookup;
pub mod material;
pub mod objects;
pub mod pathtrace;
pub mod pipelines;
pub mod profiler;
pub mod screen;

verus! {

/// A point of the window, in pixels.
#[derive(Debug, Clone, Copy, PartialEq, Eq, Structural)]
pub struct UVec2 {
    pub x: u32,
    pub y: u32,
}

/// The surface the renderer presents to: the size of the window and the
/// format of its images.
#[derive(Debug, Clone, Copy, PartialEq, Eq, Structural)]
pub struct SurfaceState {
    pub width: u32,
    pub height: u32,
    pub format: TextureFormat,
}

impl SurfaceState {
    /// Takes the new size of the window.
    pub fn resize(&mut self, width: u32, height: u32)
        ensures
            *final(self) == (SurfaceState { width, height, format: old(self).format }),
    {
        self.width = width;
        self.height = height;
    }
}

/// The rectangle of the window that is rendered into: what the panels of the
/// menu leave free.
#[derive(Debug, Clone, Copy, PartialEq, Eq, Structural)]
pub struct RendererViewport {
    pub start: UVec2,
    pub end: UVec2,
}

/// The rectangle that panels of `left` and `right` pixels leave of a window.
pub open spec fn spec_between_panels(window: UVec2, left: u32, right: u32) -> RendererViewport {
    RendererViewport {
        start: UVec2 { x: left, y: 0 },
        end: UVec2 { x: (window.x - right) as u32, y: window.y },
    }
}

/// Whether panels of `left` and `right` pixels leave anything of a window.
pub open spec fn spec_leaves_room(window: UVec2, left: u32, right: u32) -> bool {
    left + right < window.x && window.y > 0
}

impl RendererViewport {
    /// The rectangle holds at least one pixel.
    pub open spec fn wf(&self) -> bool {
        self.end.x > self.start.x && self.end.y > self.start.y
    }

    pub open spec fn spec_width(&self) -> u32 {
        (self.end.x - self.start.x) as u32
    }

    pub open spec fn spec_height(&self) -> u32 {
        (self.end.y - self.start.y) as u32
    }

    /// Width in pixels.
    #[verifier::when_used_as_spec(spec_width)]
    pub fn get_width(&self) -> (width: u32)
        requires
            self.wf(),
        ensures
            width == self.spec_width(),
            width > 0,
    {
        self.end.x - self.start.x
    }

    /// Height in pixels.
    #[verifier::when_used_as_spec(spec_height)]
    pub fn get_height(&self) -> (height: u32)
        requires
            self.wf(),
        ensures
            height == self.spec_height(),
            height > 0,
    {
        self.end.y - self.start.y
    }

    /// Width and height in pixels.
    pub fn get_size(&self) -> (size: UVec2)
        requires
            self.wf(),
        ensures
            size == (UVec2 { x: self.spec_width(), y: self.spec_height() }),
    {
        UVec2 { x: self.get_width(), y: self.get_height() }
    }

    /// The whole surface, where it holds a pixel at all.
    pub fn init(surface_state: &SurfaceState) -> (viewport: Option<Self>)
        ensures
            viewport == (if surface_state.width > 0 && surface_state.height > 0 {
                Some(
                    RendererViewport {
                        start: UVec2 { x: 0, y: 0 },
                        end: UVec2 { x: surface_state.width, y: surface_state.height },
                    },
                )
            } else {
                None
            }),
            viewport matches Some(v) ==> v.wf(),
    {
        if surface_state.width > 0 && surface_state.height > 0 {
            Some(
                RendererViewport {
                    start: UVec2 { x: 0, y: 0 },
                    end: UVec2 { x: surface_state.width, y: surface_state.height },
                },
            )
        } else {
            None
        }
    }

    /// What panels of `left` and `right` pixels leave of a window of size
    /// `window`; `None` where they leave nothing.
    pub fn between_panels(window: UVec2, left: u32, right: u32) -> (viewport: Option<Self>)
        ensures
            viewport == (if spec_leaves_room(window, left, right) {
                Some(spec_between_panels(window, left, right))
            } else {
                None
            }),
            viewport matches Some(v) ==> v.wf(),
    {
        if right < window.x && left < window.x - right && window.y > 0 {
            Some(
                RendererViewport {
                    start: UVec2 { x: left, y: 0 },
                    end: UVec2 { x: window.x - right, y: window.y },
                },
            )
        } else {
            None
        }
    }

    /// Takes the rectangle that the panels leave now. Returns whether the
    /// rectangle changed, in which case everything sized by it is to be
    /// resized. Panels that leave nothing leave the rectangle as it was.
    pub fn update(&mut self, window: UVec2, left: u32, right: u32) -> (changed: bool)
        requires
            old(self).wf(),
        ensures
            final(self).wf(),
            *final(self) == (if spec_leaves_room(window, left, right) {
                spec_between_panels(window, left, right)
            } else {
                *old(self)
            }),
            changed == (*final(self) != *old(self)),
    {
        match Self::between_panels(window, left, right) {
            Some(viewport) => {
                let changed = viewport.start.x != self.start.x || viewport.start.y != self.start.y
                    || viewport.end.x != self.end.x || viewport.end.y != self.end.y;
                *self = viewport;
                changed
            },
            None => false,
        }
    }
}


/// The four bytes of `value`, lowest byte first.
pub open spec fn spec_u32_bytes(value: u32) -> Seq<u8> {
    seq![
        (value % 0x100) as u8,
        (value / 0x100 % 0x100) as u8,
        (value / 0x1_0000 % 0x100) as u8,
        (value / 0x100_0000) as u8,
    ]
}

/// The bytes that a buffer holds for a viewport: both corners, `x` before
/// `y`, the start before the end.
pub open spec fn spec_viewport_bytes(viewport: RendererViewport) -> Seq<u8> {
    spec_u32_bytes(viewport.start.x) + spec_u32_bytes(viewport.start.y) + spec_u32_bytes(
        viewport.end.x,
    ) + spec_u32_bytes(viewport.end.y)
}

/// Puts the four bytes of `value` behind `bytes`.
pub fn push_u32(bytes: &mut Vec<u8>, value: u32)
    ensures
        final(bytes)@ == old(bytes)@ + spec_u32_bytes(value),
{
    bytes.push((value % 0x100) as u8);
    bytes.push((value / 0x100 % 0x100) as u8);
    bytes.push((value / 0x1_0000 % 0x100) as u8);
    bytes.push((value / 0x100_0000) as u8);
    assert(bytes@ =~= old(bytes)@ + spec_u32_bytes(value));
}

impl RendererViewport {
    /// The sixteen bytes that a buffer holds for the viewport.
    pub fn as_std430(&self) -> (bytes: Vec<u8>)
        ensures
            bytes@ == spec_viewport_bytes(*self),
            bytes@.len() == 16,
    {
        let mut bytes: Vec<u8> = Vec::new();
        push_u32(&mut bytes, self.start.x);
        push_u32(&mut bytes, self.start.y);
        push_u32(&mut bytes, self.end.x);
        push_u32(&mut bytes, self.end.y);
        assert(bytes@ =~= spec_viewport_bytes(*self));
        bytes
    }
}

} // verus!
