//! The presentation surface's configuration: pixel format, size, present
//! mode and alpha mode. The surface itself belongs to the embedding
//! application; this module holds the values it must be configured with.

use vstd::prelude::*;

verus! {

/// How presented images are synchronised with the display.
#[derive(Clone, Copy, Debug, PartialEq, Eq)]
pub enum PresentMode {
    /// Vsync: presentation is bounded to the display's refresh rate.
    /// Supported everywhere, and the only mode this harness offers.
    Fifo,
    FifoRelaxed,
    Immediate,
    Mailbox,
}

/// How the alpha channel is treated during compositing.
#[derive(Clone, Copy, Debug, PartialEq, Eq)]
pub enum AlphaMode {
    /// Let the surface pick whatever compositing it supports.
    Auto,
    Opaque,
    PreMultiplied,
    PostMultiplied,
}

/// A window size in physical pixels.
#[derive(Clone, Copy, Debug, PartialEq, Eq)]
pub struct Extent {
    pub width: u32,
    pub height: u32,
}

/// Everything a presentation surface is configured with. The pixel format
/// is an identifier into the list of formats the surface supports; it is
/// chosen once at startup and never renegotiated.
#[derive(Clone, Copy, Debug, PartialEq, Eq)]
pub struct SurfaceConfig {
    pub format: u32,
    pub width: u32,
    pub height: u32,
    pub present_mode: PresentMode,
    pub alpha_mode: AlphaMode,
}

impl SurfaceConfig {
    /// A surface is only ever configured with a non-degenerate size.
    pub open spec fn wf(self) -> bool {
        self.width > 0 && self.height > 0
    }

    /// The same configuration, retargeted to a new size.
    pub open spec fn with_size_spec(self, width: u32, height: u32) -> SurfaceConfig {
        SurfaceConfig { width, height, ..self }
    }

    /// The initial configuration: the given format and size, vsync
    /// presentation, automatic alpha compositing.
    pub open spec fn new_spec(format: u32, width: u32, height: u32) -> SurfaceConfig {
        SurfaceConfig {
            format,
            width,
            height,
            present_mode: PresentMode::Fifo,
            alpha_mode: AlphaMode::Auto,
        }
    }

    /// Build the initial configuration of `new_spec`.
    pub fn new(format: u32, width: u32, height: u32) -> (c: SurfaceConfig)
        requires
            width > 0,
            height > 0,
        ensures
            c == SurfaceConfig::new_spec(format, width, height),
            c.wf(),
    {
        SurfaceConfig {
            format,
            width,
            height,
            present_mode: PresentMode::Fifo,
            alpha_mode: AlphaMode::Auto,
        }
    }

    /// Retarget the configuration to a new, non-degenerate size.
    pub fn with_size(self, width: u32, height: u32) -> (c: SurfaceConfig)
        requires
            width > 0,
            height > 0,
        ensures
            c == self.with_size_spec(width, height),
            c.wf(),
    {
        SurfaceConfig { width, height, ..self }
    }
}

} // verus!
