//! Kernel-wide return codes shared by every peripheral driver and capsule.

use vstd::prelude::*;

verus! {

/// Status code handed back by every driver entry point. `SUCCESS` is the
/// only non-error value; the remaining variants name the reason a request
/// was rejected or a hardware command failed.
#[derive(Copy, Clone, Debug, PartialEq, Eq, Structural)]
pub enum ReturnCode {
    /// Operation completed or was accepted.
    SUCCESS,
    /// Generic hardware or protocol failure.
    FAIL,
    /// The peripheral already has an operation of this kind in flight.
    EBUSY,
    /// The operation is already enabled or pending.
    EALREADY,
    /// The peripheral is powered off.
    EOFF,
    /// A reservation (buffer or client slot) required by the call is absent.
    ERESERVE,
    /// A parameter was malformed.
    EINVAL,
    /// A length lies outside what the hardware can carry.
    ESIZE,
    /// The operation was cancelled.
    ECANCEL,
    /// Memory required for the operation is unavailable.
    ENOMEM,
    /// The hardware cannot realise the requested configuration.
    ENOSUPPORT,
    /// No such device.
    ENODEVICE,
    /// The component is not installed.
    EUNINSTALLED,
    /// The peer did not acknowledge.
    ENOACK,
}

} // verus!
