//! Core logic of a userspace-tunnel bridge: the connection handle
//! registry, the tunnel lifecycle state machine, credential
//! acquisition, endpoint parsing, and the sentinel/error taxonomy
//! surfaced at the foreign-call boundary.
//!
//! Everything here is plain sequential logic with contracts; the
//! asynchronous engine, locks, file I/O and the foreign-call boundary
//! live outside this crate and drive these functions.

pub mod errors;
pub mod registry;
pub mod lifecycle;
pub mod credentials;
pub mod endpoint;
pub mod boundary;

pub use errors::TunnelError;
pub use errors::TunnelState;
pub use registry::ConnectionRegistry;
pub use lifecycle::TunnelCore;
pub use credentials::TunnelConfig;
pub use credentials::AcquireState;
pub use credentials::AcquireEvent;
pub use credentials::acquire_step;
pub use credentials::TUNNEL_MTU;
pub use endpoint::Endpoint;
pub use endpoint::parse_endpoint;
