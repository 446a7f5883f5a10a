//! The presentation surface as a two-state machine: unconfigured until a
//! non-empty size is known, then configured with the last accepted size.

use vstd::prelude::*;

verus! {

/// Frames the presentation queue may hold before acquisition blocks.
pub const MAX_FRAME_LATENCY: u32 = 2;

/// Size and lifecycle of the presentation surface.
pub struct SurfaceManager {
    /// Width in physical pixels of the last accepted configuration (or of the window at start).
    pub width: u32,
    /// Height in physical pixels of the last accepted configuration (or of the window at start).
    pub height: u32,
    /// Whether the surface has been configured and frames may be acquired.
    pub configured: bool,
}

/// What the frame loop should do at the start of a redraw.
#[derive(PartialEq, Eq, Structural, Clone, Copy, Debug)]
pub enum FrameStart {
    /// The surface is not configured yet: draw nothing, report success.
    Skip,
    /// Request the next presentable texture.
    Acquire,
}

/// Why acquiring the next surface texture failed.
#[derive(PartialEq, Eq, Structural, Clone, Copy, Debug)]
pub enum AcquireFailure {
    Timeout,
    Outdated,
    Lost,
    OutOfMemory,
    Other,
}

/// How the frame loop recovers from a failed acquisition.
#[derive(PartialEq, Eq, Structural, Clone, Copy, Debug)]
pub enum Recovery {
    /// Configure the surface again at the given size; the next redraw retries.
    Reconfigure { width: u32, height: u32 },
    /// Log the failure and drop this frame only.
    DropFrame,
}

impl SurfaceManager {
    /// A configured surface always has a non-empty size.
    pub open spec fn wf(&self) -> bool {
        self.configured ==> self.width > 0 && self.height > 0
    }

    /// A surface for a window of the given size, not configured yet.
    pub fn new(width: u32, height: u32) -> (r: Self)
        ensures
            r.width == width,
            r.height == height,
            !r.configured,
            r.wf(),
    {
        SurfaceManager { width, height, configured: false }
    }

    /// Whether frames may be acquired.
    pub fn is_configured(&self) -> (r: bool)
        ensures
            r == self.configured,
    {
        self.configured
    }

    /// Configures the surface at the given size. A size with a zero side is
    /// refused and leaves the surface as it was; otherwise the size is recorded
    /// and the surface becomes configured. Returns whether the host must
    /// (re)configure the GPU surface now.
    pub fn configure(&mut self, width: u32, height: u32) -> (applied: bool)
        ensures
            applied == (width > 0 && height > 0),
            applied ==> *final(self) == (SurfaceManager { width, height, configured: true }),
            !applied ==> *final(self) == *old(self),
            old(self).wf() ==> final(self).wf(),
    {
        if width > 0 && height > 0 {
            self.width = width;
            self.height = height;
            self.configured = true;
            true
        } else {
            false
        }
    }

    /// Handles a window resize. A zero-area size (a minimised window) is a
    /// no-op; any other size reconfigures the surface.
    pub fn resize(&mut self, width: u32, height: u32) -> (applied: bool)
        ensures
            applied == (width > 0 && height > 0),
            (width == 0 || height == 0) ==> *final(self) == *old(self),
            applied ==> *final(self) == (SurfaceManager { width, height, configured: true }),
            !applied ==> *final(self) == *old(self),
            old(self).wf() ==> final(self).wf(),
    {
        self.configure(width, height)
    }

    /// Decides how a redraw begins.
    pub fn begin_frame(&self) -> (r: FrameStart)
        ensures
            r == (if self.configured { FrameStart::Acquire } else { FrameStart::Skip }),
    {
        if self.configured {
            FrameStart::Acquire
        } else {
            FrameStart::Skip
        }
    }

    /// Decides how to recover from a failed acquisition: a lost or outdated
    /// surface is configured again at the last known size, anything else
    /// drops the frame.
    pub fn recover(&self, failure: AcquireFailure) -> (r: Recovery)
        ensures
            r == recovery_for(*self, failure),
    {
        match failure {
            AcquireFailure::Lost | AcquireFailure::Outdated => Recovery::Reconfigure {
                width: self.width,
                height: self.height,
            },
            _ => Recovery::DropFrame,
        }
    }
}

/// The recovery owed for each acquisition failure.
pub open spec fn recovery_for(s: SurfaceManager, failure: AcquireFailure) -> Recovery {
    match failure {
        AcquireFailure::Lost | AcquireFailure::Outdated => Recovery::Reconfigure {
            width: s.width,
            height: s.height,
        },
        _ => Recovery::DropFrame,
    }
}

} // verus!
