//! Interface for reading the battery voltage.

use vstd::prelude::*;

verus! {

/// Supplies the battery voltage in millivolts.
pub trait Reader {
    /// Initiate a voltage reading.
    fn get_mv(&self) -> u32;
}

/// Receives the result of a battery voltage reading.
pub trait Client {
    /// Accept the voltage, in millivolts, of a completed reading.
    fn receive_result(&mut self, mv: u32);
}

} // verus!
