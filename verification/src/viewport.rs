//! The dimensions the driver keeps, the configuration of the surface, and
//! what becomes of them when the window is resized.
//!
//! Texture formats are the caller's own type; nothing here looks inside
//! one.

use vstd::prelude::*;

verus! {

/// A width and a height in pixels.
#[derive(Clone, Copy, Debug, PartialEq, Eq)]
pub struct Size {
    pub width: u32,
    pub height: u32,
}

/// When a presented image reaches the screen.
#[derive(Clone, Copy, Debug, PartialEq, Eq)]
pub enum PresentMode {
    /// In order, one per refresh of the screen.
    Fifo,
    /// At once.
    Immediate,
}

/// How the presentation surface is configured.
#[derive(Clone, Copy, Debug, PartialEq, Eq)]
pub struct SurfaceConfig<F> {
    /// The texture format of the images of the surface.
    pub format: F,
    pub width: u32,
    pub height: u32,
    pub present_mode: PresentMode,
}

/// The dimensions the driver keeps: of the window, of the configured
/// surface, of the projection and of the depth buffer.
#[derive(Clone, Copy, Debug, PartialEq, Eq)]
pub struct Viewport<F> {
    /// The size of the window as last accepted.
    pub size: Size,
    pub config: SurfaceConfig<F>,
    /// Width and height whose quotient is the aspect ratio of the
    /// projection.
    pub projection: Size,
    /// The size of the depth buffer.
    pub depth: Size,
}

/// What a resize asks of the caller.
#[derive(Clone, Copy, Debug, PartialEq, Eq)]
pub struct ResizePlan<F> {
    /// The configuration to apply to the surface, if it is to be configured
    /// again.
    pub configure: Option<SurfaceConfig<F>>,
    /// The size at which the depth buffer is to be built anew.
    pub depth: Size,
}

impl<F> Viewport<F> {
    /// Surface, projection and depth buffer all have the size of the
    /// window.
    pub open spec fn coherent(self) -> bool {
        &&& self.config.width == self.size.width
        &&& self.config.height == self.size.height
        &&& self.projection == self.size
        &&& self.depth == self.size
    }

    /// The viewport of a window of the given size, whose surface has the
    /// given format and presents in order.
    pub open spec fn of(format: F, width: u32, height: u32) -> Viewport<F> {
        Viewport {
            size: Size { width, height },
            config: SurfaceConfig { format, width, height, present_mode: PresentMode::Fifo },
            projection: Size { width, height },
            depth: Size { width, height },
        }
    }

    /// The viewport after the window was resized. A size with both sides
    /// positive becomes the size of window, surface and projection; a size
    /// with a side of zero is not taken over. Either way the depth buffer
    /// then has the size of the surface. Format and present mode stay.
    pub open spec fn resized(self, width: u32, height: u32) -> Viewport<F> {
        if width > 0 && height > 0 {
            Viewport {
                size: Size { width, height },
                config: SurfaceConfig { width, height, ..self.config },
                projection: Size { width, height },
                depth: Size { width, height },
            }
        } else {
            Viewport {
                depth: Size { width: self.config.width, height: self.config.height },
                ..self
            }
        }
    }

    /// What a resize to the given size asks of the caller: the surface is
    /// configured again exactly when the size is taken over, and the depth
    /// buffer is built anew in any case, at the size the surface then has.
    pub open spec fn resize_plan(self, width: u32, height: u32) -> ResizePlan<F> {
        ResizePlan {
            configure: if width > 0 && height > 0 {
                Some(self.resized(width, height).config)
            } else {
                None
            },
            depth: self.resized(width, height).depth,
        }
    }
}

impl<F: Copy> Viewport<F> {
    /// The viewport of a window of the given size, whose surface has the
    /// given format and presents in order.
    pub fn new(format: F, width: u32, height: u32) -> (viewport: Self)
        ensures
            viewport == Self::of(format, width, height),
            viewport.coherent(),
    {
        let size = Size { width, height };
        Viewport {
            size,
            config: SurfaceConfig { format, width, height, present_mode: PresentMode::Fifo },
            projection: size,
            depth: size,
        }
    }

    /// Takes over a new size of the window and says what that asks of the
    /// caller.
    pub fn resize(&mut self, width: u32, height: u32) -> (plan: ResizePlan<F>)
        ensures
            *final(self) == old(self).resized(width, height),
            plan == old(self).resize_plan(width, height),
            old(self).coherent() ==> final(self).coherent(),
    {
        if width > 0 && height > 0 {
            let size = Size { width, height };
            let config = SurfaceConfig {
                format: self.config.format,
                width,
                height,
                present_mode: self.config.present_mode,
            };
            self.size = size;
            self.config = config;
            self.projection = size;
            self.depth = size;
            ResizePlan { configure: Some(config), depth: size }
        } else {
            let depth = Size { width: self.config.width, height: self.config.height };
            self.depth = depth;
            ResizePlan { configure: None, depth }
        }
    }
}

/// Resizing keeps surface, projection and depth buffer at the size of the
/// window, whatever size is asked for, and never changes the format.
pub proof fn lemma_resize_keeps_coherent<F>(viewport: Viewport<F>, width: u32, height: u32)
    requires
        viewport.coherent(),
    ensures
        viewport.resized(width, height).coherent(),
        viewport.resized(width, height).config.format == viewport.config.format,
        viewport.resize_plan(width, height).depth.width == viewport.resized(
            width,
            height,
        ).config.width,
        viewport.resize_plan(width, height).depth.height == viewport.resized(
            width,
            height,
        ).config.height,
{
}

/// A size with a side of zero is rejected: the surface is not configured
/// again and no stored dimension changes, but the depth buffer is still
/// built anew, at the dimensions it had.
pub proof fn lemma_resize_rejects_zero<F>(viewport: Viewport<F>, width: u32, height: u32)
    requires
        viewport.coherent(),
        width == 0 || height == 0,
    ensures
        viewport.resized(width, height) == viewport,
        viewport.resize_plan(width, height) == (ResizePlan::<F> {
            configure: None,
            depth: viewport.depth,
        }),
{
}

/// Resizing to the size the window has changes no stored dimension: a lost
/// surface is configured again as it was, and the depth buffer built anew
/// as it was.
pub proof fn lemma_resize_to_own_size<F>(viewport: Viewport<F>)
    requires
        viewport.coherent(),
    ensures
        viewport.resized(viewport.size.width, viewport.size.height) == viewport,
        viewport.resize_plan(viewport.size.width, viewport.size.height).depth == viewport.depth,
        viewport.size.width > 0 && viewport.size.height > 0 ==> viewport.resize_plan(
            viewport.size.width,
            viewport.size.height,
        ).configure == Some(viewport.config),
{
}

} // verus!
