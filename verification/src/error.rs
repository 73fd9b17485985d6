//! The failures that the manager can report.

use vstd::prelude::*;

verus! {

/// Why the connection to the driver could not be set up.
#[derive(Clone, Copy, Debug, PartialEq, Eq, Structural)]
pub enum SetupFailure {
    /// No graphics library could be loaded.
    NoLibrary,
    /// The driver refused to create an instance.
    InstanceRejected,
    /// No presentation surface could be bound to the window.
    SurfaceRejected,
    /// The driver could not list its physical devices.
    EnumerationFailed,
    /// No physical device can both draw and present to the surface.
    NoSuitableDevice,
    /// The driver refused to create the logical device.
    DeviceRejected,
    /// The surface's capabilities could not be queried.
    NoSurfaceCapabilities,
    /// The surface's formats could not be queried, or it has none.
    NoSurfaceFormat,
    /// The surface supports no composite-alpha mode.
    NoCompositeAlpha,
    /// One more image than the surface's minimum cannot be counted.
    ImageCountOverflow,
    /// The presentation chain could not be created.
    ChainRejected,
    /// The driver answered a call that was not the one in progress.
    UnexpectedReply,
}

/// What went wrong, as a caller has to tell the cases apart.
#[derive(Clone, Copy, Debug, PartialEq, Eq, Structural)]
pub enum RenderError {
    /// Setup failed; nothing was built.
    SetupFailure(SetupFailure),
    /// The driver rejected the presentation chain for the requested extent.
    ChainStale,
    /// A submission or its present was rejected; the frame is dropped.
    SubmissionRejected,
    /// The chain could not hand out an image.
    DeviceLost,
}

impl SetupFailure {
    /// The message of each failure.
    pub open spec fn message(self) -> Seq<char> {
        match self {
            SetupFailure::NoLibrary => "no local Vulkan library/DLL"@,
            SetupFailure::InstanceRejected => "failed to create instance"@,
            SetupFailure::SurfaceRejected => "failed to create surface"@,
            SetupFailure::EnumerationFailed => "could not enumerate devices"@,
            SetupFailure::NoSuitableDevice => "no device available"@,
            SetupFailure::DeviceRejected => "failed to create device"@,
            SetupFailure::NoSurfaceCapabilities => "failed to get surface capabilities"@,
            SetupFailure::NoSurfaceFormat => "no surface format available"@,
            SetupFailure::NoCompositeAlpha => "no composite alpha mode available"@,
            SetupFailure::ImageCountOverflow => "image count out of range"@,
            SetupFailure::ChainRejected => "failed to create swapchain"@,
            SetupFailure::UnexpectedReply => "unexpected reply from the driver"@,
        }
    }

    /// A sentence that says what failed.
    pub fn describe(&self) -> (text: String)
        ensures
            text@ == self.message(),
    {
        match self {
            SetupFailure::NoLibrary => "no local Vulkan library/DLL".to_owned(),
            SetupFailure::InstanceRejected => "failed to create instance".to_owned(),
            SetupFailure::SurfaceRejected => "failed to create surface".to_owned(),
            SetupFailure::EnumerationFailed => "could not enumerate devices".to_owned(),
            SetupFailure::NoSuitableDevice => "no device available".to_owned(),
            SetupFailure::DeviceRejected => "failed to create device".to_owned(),
            SetupFailure::NoSurfaceCapabilities => "failed to get surface capabilities".to_owned(),
            SetupFailure::NoSurfaceFormat => "no surface format available".to_owned(),
            SetupFailure::NoCompositeAlpha => "no composite alpha mode available".to_owned(),
            SetupFailure::ImageCountOverflow => "image count out of range".to_owned(),
            SetupFailure::ChainRejected => "failed to create swapchain".to_owned(),
            SetupFailure::UnexpectedReply => "unexpected reply from the driver".to_owned(),
        }
    }
}

impl RenderError {
    /// The message of each error.
    pub open spec fn message(self) -> Seq<char> {
        match self {
            RenderError::SetupFailure(cause) => cause.message(),
            RenderError::ChainStale => "failed to recreate swapchain"@,
            RenderError::SubmissionRejected => "failed to flush future"@,
            RenderError::DeviceLost => "failed to acquire next image"@,
        }
    }

    /// A sentence that says what failed.
    pub fn describe(&self) -> (text: String)
        ensures
            text@ == self.message(),
    {
        match self {
            RenderError::SetupFailure(cause) => cause.describe(),
            RenderError::ChainStale => "failed to recreate swapchain".to_owned(),
            RenderError::SubmissionRejected => "failed to flush future".to_owned(),
            RenderError::DeviceLost => "failed to acquire next image".to_owned(),
        }
    }

    /// Whether the process cannot go on after this error.
    pub open spec fn fatal(self) -> bool {
        !(self is SubmissionRejected)
    }

    /// Whether the process cannot go on after this error.
    pub fn is_fatal(&self) -> (fatal: bool)
        ensures
            fatal == self.fatal(),
    {
        match self {
            RenderError::SubmissionRejected => false,
            _ => true,
        }
    }
}

} // verus!
