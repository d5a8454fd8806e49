//! The presentable surface and its configuration.
//!
//! The manager owns the last configuration handed to the platform surface:
//! format, dimensions and present mode.  Reconfiguration happens only on
//! resize, and a resize to a degenerate size is silently rejected so that
//! the configuration always matches the last known valid surface size.

use vstd::prelude::*;

verus! {

/// A presentation format as the platform reports it: an opaque format code
/// together with whether the format is sRGB-encoded.
#[derive(Clone, Copy, Debug, PartialEq, Eq, Structural)]
pub struct SurfaceFormat {
    pub code: u32,
    pub srgb: bool,
}

/// Configuration of the presentable surface.
#[derive(Clone, Copy, Debug, PartialEq, Eq, Structural)]
pub struct SurfaceConfig {
    pub format: SurfaceFormat,
    pub width: u32,
    pub height: u32,
    /// Opaque code of the presentation mode chosen at startup.
    pub present_mode: u32,
}

/// Owns the surface configuration; the only component that reconfigures the
/// presentable surface.
#[derive(Clone, Copy, Debug, PartialEq, Eq, Structural)]
pub struct SurfaceManager {
    pub config: SurfaceConfig,
    /// False until the first successful `configure`; nothing is rendered
    /// before that.
    pub configured: bool,
}

impl SurfaceManager {
    /// Once configured, the recorded dimensions are nonzero.
    pub open spec fn wf(self) -> bool {
        self.configured ==> self.config.width >= 1 && self.config.height >= 1
    }

    /// A manager for a surface that has not been configured yet; the format
    /// and present mode were chosen at startup, the dimensions are the
    /// window's initial ones.
    pub fn new(format: SurfaceFormat, present_mode: u32, width: u32, height: u32) -> (m:
        SurfaceManager)
        ensures
            m.wf(),
            !m.configured,
            m.config.format == format,
            m.config.present_mode == present_mode,
            m.config.width == width,
            m.config.height == height,
    {
        SurfaceManager { config: SurfaceConfig { format, width, height, present_mode }, configured: false }
    }

    /// Update the configuration to a new size.  A zero width or height is
    /// rejected: nothing changes and the surface is not reconfigured.
    pub fn configure(&mut self, width: u32, height: u32) -> (accepted: bool)
        requires
            old(self).wf(),
        ensures
            final(self).wf(),
            accepted <==> width >= 1 && height >= 1,
            !accepted ==> *final(self) == *old(self),
            accepted ==> *final(self) == (SurfaceManager {
                config: SurfaceConfig { width, height, ..old(self).config },
                configured: true,
            }),
    {
        if width > 0 && height > 0 {
            self.config.width = width;
            self.config.height = height;
            self.configured = true;
            true
        } else {
            false
        }
    }
}

/// The format the viewer presents in: the first sRGB-capable format the
/// platform offers, or the first offered format when none is sRGB; `None`
/// only when the platform offers no format at all.
pub fn choose_format(formats: &Vec<SurfaceFormat>) -> (r: Option<SurfaceFormat>)
    ensures
        r is Some <==> formats@.len() >= 1,
        r matches Some(f) ==> {
            if exists|i: int| 0 <= i < formats@.len() && formats@[i].srgb {
                exists|i: int|
                    0 <= i < formats@.len() && formats@[i].srgb && f == formats@[i]
                        && (forall|j: int| 0 <= j < i ==> !formats@[j].srgb)
            } else {
                f == formats@[0]
            }
        },
{
    let n = formats.len();
    let mut i: usize = 0;
    while i < n
        invariant
            n == formats@.len(),
            0 <= i <= n,
            forall|j: int| 0 <= j < i ==> !formats@[j].srgb,
        decreases n - i,
    {
        if formats[i].srgb {
            return Some(formats[i]);
        }
        i = i + 1;
    }
    if n >= 1 {
        Some(formats[0])
    } else {
        None
    }
}

} // verus!
