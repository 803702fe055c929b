//! What a renderer decides for a frame and for a resize, apart from the
//! device that carries it out.

pub mod wgpu;

use vstd::prelude::*;

verus! {

/// An extent in physical pixels.
#[derive(Clone, Copy, Debug, PartialEq, Eq, Structural)]
pub struct PhysicalSize {
    /// Pixels across.
    pub width: u32,
    /// Pixels down.
    pub height: u32,
}

impl PhysicalSize {
    /// An extent of `width` by `height` pixels.
    pub fn new(width: u32, height: u32) -> (size: Self)
        ensures
            size.width == width,
            size.height == height,
    {
        PhysicalSize { width, height }
    }

    /// Whether the extent covers no pixel.
    pub open spec fn is_empty(self) -> bool {
        self.width == 0 || self.height == 0
    }
}

/// How finished frames reach the screen.
#[derive(Clone, Copy, Debug, PartialEq, Eq, Structural)]
pub enum PresentMode {
    /// Frames queue up and are shown one per refresh.
    Fifo,
    /// As `Fifo`, but a late frame is shown at once.
    FifoRelaxed,
    /// Frames are shown at once, without waiting for a refresh.
    Immediate,
    /// Only the newest waiting frame is shown at a refresh.
    Mailbox,
}

/// The presentation parameters of the surface.
#[derive(Clone, Copy, Debug, PartialEq, Eq, Structural)]
pub struct SurfaceConfiguration {
    /// The position of the chosen texture format among those that the
    /// surface offers.
    pub format: usize,
    /// Pixels across.
    pub width: u32,
    /// Pixels down.
    pub height: u32,
    /// How finished frames reach the screen.
    pub present_mode: PresentMode,
    /// How many frames may wait to be shown.
    pub desired_maximum_frame_latency: u32,
}

/// One indexed, instanced draw.
#[derive(Clone, Copy, Debug, PartialEq, Eq, Structural)]
pub struct DrawCall {
    /// The position, in the instance list, of the instance whose shape
    /// supplies the vertex and index buffers.
    pub geometry: usize,
    /// The draw covers the indices from 0 up to this number.
    pub index_count: u32,
    /// The draw covers the instances from 0 up to this number.
    pub instance_count: u32,
}

/// What one frame consists of: a single pass that clears the target and
/// issues at most one draw.
#[derive(Clone, Copy, Debug)]
pub struct FramePlan {
    /// Red, green, blue and alpha of the clear colour, each the bit pattern
    /// of a double-precision value.
    pub clear_color: [u64; 4],
    /// The draw of the pass, if there is anything to draw.
    pub draw: Option<DrawCall>,
}

/// The clear colour of every frame, a light blue: red 0.0117647059, green
/// 0.7890625, blue 0.984375, fully opaque.
pub open spec fn clear_color() -> [u64; 4] {
    [0x3f88_1818_18b3_51bdu64, 0x3fe9_4000_0000_0000u64, 0x3fef_8000_0000_0000u64,
        0x3ff0_0000_0000_0000u64]
}

/// A renderer, as far as its decisions go.
pub trait Renderer: Sized {
    /// The extent that the surface is configured for.
    spec fn extent(&self) -> PhysicalSize;

    /// The frame that would be drawn now.
    spec fn frame(&self) -> FramePlan;

    /// Plans the next frame.
    fn render(&self) -> (plan: FramePlan)
        ensures
            plan == self.frame(),
    ;

    /// Takes a new extent for the surface. An extent without area is
    /// ignored. Tells whether the surface has to be configured anew.
    fn resize(&mut self, size: PhysicalSize) -> (applied: bool)
        ensures
            applied == !size.is_empty(),
            final(self).extent() == if applied {
                size
            } else {
                old(self).extent()
            },
    ;
}

} // verus!
