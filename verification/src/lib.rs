//! Client library for a microkernel device-command protocol.
//!
//! Callers resolve a device by name into an opaque handle, then send
//! fixed-width command words plus a small inline payload and receive a
//! single 64-bit result. The library covers the dispatch layer: the
//! write-once registry of kernel services, the device resolver, the
//! command dispatcher, and the callback table that bridges native hook
//! values into kernel-invocable (trampoline, data word) pairs.

use vstd::prelude::*;

pub mod hook;
pub mod kernel;
pub mod mouse;
pub mod proto;
pub mod registry;
pub mod sim;
pub mod win;

verus! {

/// Opaque 64-bit identifier for a live kernel device, returned by a device
/// query. Meaningless outside the kernel that issued it.
pub type Device = u64;

/// Failures of the dispatch layer that are surfaced to callers as values.
#[derive(Clone, Copy, Debug, PartialEq, Eq, Structural)]
pub enum KosError {
    /// A device operation was attempted before the kernel services were
    /// installed. The handshake must happen first; the dispatch layer fails
    /// fast instead of proceeding with no services.
    Uninitialized,
    /// A device name cannot cross the boundary as a null-terminated byte
    /// sequence because its encoding holds an interior zero byte.
    BadName,
    /// The kernel answered a device query with the "no such device"
    /// sentinel; the value is not usable as a handle.
    NoSuchDevice,
    /// The payload length does not match the fixed arity that the command
    /// vocabulary assigns to the command word.
    BadArity,
    /// The kernel answered a command with its rejection sentinel.
    Rejected,
}

} // verus!
