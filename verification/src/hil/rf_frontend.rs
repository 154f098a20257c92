//! Interface to the external RF front-end module sitting between the
//! radio core and the antenna.

use crate::returncode::ReturnCode;
use vstd::prelude::*;

verus! {

/// Control surface of the SE2435L front-end: power-amplifier and
/// low-noise-amplifier paths, bypass, and sleep.
#[allow(non_camel_case_types)]
pub trait SE2435L {
    /// Put the front end to sleep.
    fn sleep(&mut self) -> ReturnCode;

    /// Route the signal around both amplifiers.
    fn bypass(&mut self) -> ReturnCode;

    /// Enable the transmit power amplifier.
    fn enable_pa(&mut self) -> ReturnCode;

    /// Enable the receive low-noise amplifier.
    fn enable_lna(&mut self) -> ReturnCode;

    /// Power the module on.
    fn power_on(&mut self) -> ReturnCode;

    /// Power the module off.
    fn power_off(&mut self) -> ReturnCode;
}

} // verus!
