//! Interface to the Skyworks RF front-end switch.

use crate::returncode::ReturnCode;
use vstd::prelude::*;

verus! {

/// Control surface of the Skyworks front end: amplifier paths, bypass
/// and sleep.
pub trait Skyworks {
    /// Put the front end to sleep.
    fn sleep(&mut self) -> ReturnCode;

    /// Route the signal around both amplifiers.
    fn bypass(&mut self) -> ReturnCode;

    /// Enable the transmit power amplifier.
    fn enable_pa(&mut self) -> ReturnCode;

    /// Enable the receive low-noise amplifier.
    fn enable_lna(&mut self) -> ReturnCode;
}

} // verus!
