//! The error taxonomy of the backend.
//!
//! Every failure a request can end in is one of these variants; each has a
//! fixed human-readable message with which it is surfaced to the broker.

use vstd::prelude::*;

verus! {

/// Why stream-node discovery failed.
#[derive(Clone, Copy, Debug, PartialEq, Eq, Structural)]
pub enum DiscoveryError {
    /// The compositor's socket could not be resolved or connected to.
    NoCompositor,
    /// A transport-level failure during a settle-wait.
    ProtocolDispatchError,
    /// The compositor's capture-stream interface was not advertised.
    CapabilityNotFound,
    /// The interface was bound but no stream-node notification arrived.
    IdentifierNotAdvertised,
    /// The registry scan exceeded its time bound.
    DiscoveryTimeout,
}

/// A violation of the session state machine.
#[derive(Clone, Copy, Debug, PartialEq, Eq, Structural)]
pub enum SessionError {
    /// The handle is already a member of the registry.
    AlreadyExists,
    /// The handle is not a member of the registry.
    NotFound,
}

/// Why a screenshot request failed.
#[derive(Clone, Copy, Debug, PartialEq, Eq, Structural)]
pub enum ScreenshotError {
    /// No pictures directory could be determined.
    NoDestinationDirectory,
    /// The destination path cannot be represented as a file URL.
    InvalidPath,
    /// The native capture helper failed to start or exited non-zero.
    HelperLaunchFailed,
    /// The operation is not implemented (color picking, always).
    Unsupported,
}

/// Why a start-cast request failed: either the session handle is not live,
/// or the stream node could not be discovered.
#[derive(Clone, Copy, Debug, PartialEq, Eq, Structural)]
pub enum CastError {
    Session(SessionError),
    StreamUnavailable(DiscoveryError),
}

impl DiscoveryError {
    /// The message with which this failure is reported.
    pub open spec fn message_spec(self) -> Seq<char> {
        match self {
            DiscoveryError::NoCompositor => "failed to connect to wayland socket"@,
            DiscoveryError::ProtocolDispatchError => "Wayland protocol dispatch error"@,
            DiscoveryError::CapabilityNotFound => "gamescope pipewire global object not found"@,
            DiscoveryError::IdentifierNotAdvertised => "gamescope pipewire node ID not advertised"@,
            DiscoveryError::DiscoveryTimeout => "timed out waiting for the gamescope stream node"@,
        }
    }

    /// Human-readable text of this discovery failure.
    pub fn message(&self) -> (r: &'static str)
        ensures
            r@ == self.message_spec(),
    {
        match self {
            DiscoveryError::NoCompositor => "failed to connect to wayland socket",
            DiscoveryError::ProtocolDispatchError => "Wayland protocol dispatch error",
            DiscoveryError::CapabilityNotFound => "gamescope pipewire global object not found",
            DiscoveryError::IdentifierNotAdvertised => "gamescope pipewire node ID not advertised",
            DiscoveryError::DiscoveryTimeout => "timed out waiting for the gamescope stream node",
        }
    }
}

impl ScreenshotError {
    /// The message with which this failure is reported.
    pub open spec fn message_spec(self) -> Seq<char> {
        match self {
            ScreenshotError::NoDestinationDirectory => "No XDG pictures directory to save screenshot to"@,
            ScreenshotError::InvalidPath => "Invalid file path"@,
            ScreenshotError::HelperLaunchFailed => "Failed to take screenshot"@,
            ScreenshotError::Unsupported => "PickColor method is not implemented"@,
        }
    }

    /// Human-readable text of this screenshot failure.
    pub fn message(&self) -> (r: &'static str)
        ensures
            r@ == self.message_spec(),
    {
        match self {
            ScreenshotError::NoDestinationDirectory => {
                "No XDG pictures directory to save screenshot to"
            },
            ScreenshotError::InvalidPath => "Invalid file path",
            ScreenshotError::HelperLaunchFailed => "Failed to take screenshot",
            ScreenshotError::Unsupported => "PickColor method is not implemented",
        }
    }
}

/// The message for a destination path that cannot be a file URL, naming
/// the path.
pub fn invalid_path_message(path: &String) -> (r: String)
    ensures
        r@ == "Invalid file path: "@ + path@,
{
    String::from_str("Invalid file path: ").concat(path.as_str())
}

impl CastError {
    /// The message with which this failure is reported.
    pub open spec fn message_spec(self) -> Seq<char> {
        match self {
            CastError::Session(SessionError::AlreadyExists) => "session already exists"@,
            CastError::Session(SessionError::NotFound) => "session not found"@,
            CastError::StreamUnavailable(e) => "gamescope stream not available: "@ + e.message_spec(),
        }
    }

    /// Human-readable text of this cast failure, wrapping the resolver's
    /// error text as the user-facing message.
    pub fn message(&self) -> (r: String)
        ensures
            r@ == self.message_spec(),
    {
        match self {
            CastError::Session(SessionError::AlreadyExists) => {
                String::from_str("session already exists")
            },
            CastError::Session(SessionError::NotFound) => String::from_str("session not found"),
            CastError::StreamUnavailable(e) => {
                String::from_str("gamescope stream not available: ").concat(e.message())
            },
        }
    }
}

} // verus!
