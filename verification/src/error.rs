//! What can go wrong, and whether a caller can recover from it.

use vstd::prelude::*;

verus! {

/// Why a surface handed out no texture to draw on.
#[derive(Copy, Clone, Debug, PartialEq, Eq, Structural)]
pub enum SurfaceError {
    /// No texture became available in time.
    Timeout,
    /// The surface changed and has to be configured again.
    Outdated,
    /// The surface is gone.
    Lost,
    /// No memory is left for another frame.
    OutOfMemory,
    /// Any other failure.
    Other,
}

/// The failures this library reports.
#[derive(Copy, Clone, Debug, PartialEq, Eq, Structural)]
pub enum RenderError {
    /// The platform offers no graphics adapter.
    AdapterUnavailable,
    /// The adapter gave no device.
    DeviceCreationFailed,
    /// Acquiring a frame timed out.
    SurfaceAcquireTimeout,
    /// The surface has to be configured again before a frame can be acquired.
    SurfaceAcquireOutdated,
    /// The surface cannot be drawn to any more.
    SurfaceLost,
}

impl RenderError {
    /// The failure to report when acquiring a frame failed with `error`: a
    /// timeout and an outdated surface under their own names, everything
    /// else as a lost surface.
    pub open spec fn of_acquire(error: SurfaceError) -> RenderError {
        match error {
            SurfaceError::Timeout => RenderError::SurfaceAcquireTimeout,
            SurfaceError::Outdated => RenderError::SurfaceAcquireOutdated,
            SurfaceError::Lost => RenderError::SurfaceLost,
            SurfaceError::OutOfMemory => RenderError::SurfaceLost,
            SurfaceError::Other => RenderError::SurfaceLost,
        }
    }

    /// Whether configuring the surface again and retrying can help: true of
    /// the two acquisition failures that leave the surface usable.
    pub open spec fn recoverable(self) -> bool {
        self == RenderError::SurfaceAcquireTimeout || self == RenderError::SurfaceAcquireOutdated
    }

    /// The failure to report when acquiring a frame failed with `error`.
    pub fn from_acquire(error: SurfaceError) -> (reported: RenderError)
        ensures
            reported == RenderError::of_acquire(error),
    {
        match error {
            SurfaceError::Timeout => RenderError::SurfaceAcquireTimeout,
            SurfaceError::Outdated => RenderError::SurfaceAcquireOutdated,
            SurfaceError::Lost => RenderError::SurfaceLost,
            SurfaceError::OutOfMemory => RenderError::SurfaceLost,
            SurfaceError::Other => RenderError::SurfaceLost,
        }
    }

    /// Whether configuring the surface again and retrying can help.
    pub fn is_recoverable(&self) -> (yes: bool)
        ensures
            yes == self.recoverable(),
    {
        match self {
            RenderError::SurfaceAcquireTimeout => true,
            RenderError::SurfaceAcquireOutdated => true,
            _ => false,
        }
    }

    /// A sentence that names the failure.
    pub fn message(&self) -> (text: &'static str)
        ensures
            text@ == (match *self {
                RenderError::AdapterUnavailable => "no graphics adapter is available"@,
                RenderError::DeviceCreationFailed => "the adapter gave no device"@,
                RenderError::SurfaceAcquireTimeout => "acquiring a frame timed out"@,
                RenderError::SurfaceAcquireOutdated => "the surface must be configured again"@,
                RenderError::SurfaceLost => "the surface is lost"@,
            }),
    {
        match self {
            RenderError::AdapterUnavailable => "no graphics adapter is available",
            RenderError::DeviceCreationFailed => "the adapter gave no device",
            RenderError::SurfaceAcquireTimeout => "acquiring a frame timed out",
            RenderError::SurfaceAcquireOutdated => "the surface must be configured again",
            RenderError::SurfaceLost => "the surface is lost",
        }
    }
}

} // verus!
