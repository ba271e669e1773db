use vstd::prelude::*;

verus! {

/// Error taxonomy of the bridge layer.
///
/// Variants that carry a `String` hold the descriptive detail that the
/// failing collaborator reported; the boundary layer is responsible for
/// formatting it into a caller-visible message.
#[derive(Debug)]
pub enum TunnelError {
    /// An operation that needs an active session found none.
    NotInitialized,
    /// Start was requested while a session already exists.
    AlreadyRunning,
    /// The tunnel exists but is not ready for traffic.
    NotReady,
    /// The provisioner rejected or could not complete a registration.
    WarpRegistration(String),
    /// Reading, parsing or writing the credential file failed.
    CredentialPersistence(String),
    /// Endpoint parsing or transport establishment failed.
    ConnectionFailed(String),
    /// An operation referenced a handle absent from the registry.
    InvalidHandle(i64),
    /// An underlying transport or filesystem fault.
    Io(String),
    /// Reserved: no operation currently raises it.
    Timeout,
}

/// Tunnel lifecycle state as surfaced to the caller.
#[derive(Clone, Copy, Debug, PartialEq, Eq, Structural)]
pub enum TunnelState {
    Stopped,
    Starting,
    Ready,
    Failed,
}

impl TunnelState {
    /// The integer code each state presents at the boundary.
    pub open spec fn spec_code(self) -> i32 {
        match self {
            TunnelState::Stopped => 0,
            TunnelState::Starting => 1,
            TunnelState::Ready => 2,
            TunnelState::Failed => 3,
        }
    }

    /// Integer code of the state: 0 Stopped, 1 Starting, 2 Ready, 3 Failed.
    pub fn code(self) -> (code: i32)
        ensures
            code == self.spec_code(),
    {
        match self {
            TunnelState::Stopped => 0,
            TunnelState::Starting => 1,
            TunnelState::Ready => 2,
            TunnelState::Failed => 3,
        }
    }
}

/// The state derived from session presence: Ready when a session is
/// installed, Stopped otherwise. No other state is observable once a
/// lifecycle call has returned.
pub open spec fn state_of_presence(present: bool) -> TunnelState {
    if present {
        TunnelState::Ready
    } else {
        TunnelState::Stopped
    }
}

} // verus!
