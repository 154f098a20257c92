//! Hardware-independent interface for the radio core: completion-client
//! traits, the driver-facing operation surface, and the operation and
//! power-mode enumerations shared with userspace.

use crate::returncode::ReturnCode;
use vstd::prelude::*;

verus! {

/// Which power amplifier the board routes the radio through.
#[allow(non_camel_case_types)]
#[derive(Copy, Clone, Debug, PartialEq, Eq, Structural)]
pub enum PaType {
    NONE,
    Internal,
    Skyworks,
}

/// Notified when the radio's power mode changes.
pub trait PowerClient {
    /// `on` reports whether the radio is now powered.
    fn power_mode_changed(&mut self, on: bool);
}

/// Notified when a transmit completes; the buffer comes back with the
/// result.
pub trait TxClient {
    fn transmit_event(&mut self, buf: Vec<u8>, result: ReturnCode);
}

/// Notified when a receive completes; the frame buffer comes with its
/// length and whether the frame check sequence was valid.
pub trait RxClient {
    fn receive_event(&mut self, buf: Vec<u8>, frame_len: usize, crc_valid: bool, result: ReturnCode);
}

/// Configuration surface of a radio.
pub trait RadioConfig {
    fn initialize(&mut self);

    fn reset(&mut self);

    fn stop(&mut self) -> ReturnCode;

    fn is_on(&self) -> bool;

    fn busy(&self) -> bool;

    fn get_tx_power(&self) -> u16;

    fn get_radio_status(&self) -> u32;

    fn send_stop_command(&mut self) -> ReturnCode;

    fn send_kill_command(&mut self) -> ReturnCode;

    fn get_command_status(&self) -> (ReturnCode, Option<u32>);

    fn set_tx_power(&mut self, power: u16) -> ReturnCode;

    fn set_frequency(&mut self, frequency: u16, fract_frequency: u16) -> ReturnCode;

    fn config_commit(&mut self) -> ReturnCode;
}

/// Data-path surface of a radio: buffer hand-off for transmit and the
/// arming of receive.
pub trait RadioDriver {
    /// Hand a buffer and frame length to the radio. The buffer comes back
    /// immediately with the status when the radio rejects the request.
    fn transmit(&mut self, tx_buf: Vec<u8>, len: usize) -> (ReturnCode, Option<Vec<u8>>);

    /// Arm the receiver.
    fn receive(&mut self) -> ReturnCode;
}

/// A complete radio offers both surfaces.
pub trait Radio: RadioConfig + RadioDriver {
}

/// Operations a userspace driver can request, in the order of their
/// command numbers.
#[derive(Copy, Clone, Debug, PartialEq, Eq, Structural)]
pub enum RadioOperation {
    Enable,
    Tx,
    Rx,
    Configure,
    SetFrequency,
    Disable,
    Abort,
    Sleep,
}

impl RadioOperation {
    /// The command number of this operation.
    pub fn get_operation_index(&self) -> (r: u32)
        ensures
            r == match *self {
                RadioOperation::Enable => 0u32,
                RadioOperation::Tx => 1u32,
                RadioOperation::Rx => 2u32,
                RadioOperation::Configure => 3u32,
                RadioOperation::SetFrequency => 4u32,
                RadioOperation::Disable => 5u32,
                RadioOperation::Abort => 6u32,
                RadioOperation::Sleep => 7u32,
            },
    {
        match *self {
            RadioOperation::Enable => 0,
            RadioOperation::Tx => 1,
            RadioOperation::Rx => 2,
            RadioOperation::Configure => 3,
            RadioOperation::SetFrequency => 4,
            RadioOperation::Disable => 5,
            RadioOperation::Abort => 6,
            RadioOperation::Sleep => 7,
        }
    }
}

/// Chip-level power modes.
#[derive(Copy, Clone, Debug, PartialEq, Eq, Structural)]
pub enum PowerMode {
    Active,
    Sleep,
    DeepSleep,
}

impl PowerMode {
    /// The index used to report this mode.
    pub fn get_power_mode_index(&self) -> (r: u32)
        ensures
            r == match *self {
                PowerMode::Active => 0u32,
                PowerMode::Sleep => 1u32,
                PowerMode::DeepSleep => 2u32,
            },
    {
        match *self {
            PowerMode::Active => 0,
            PowerMode::Sleep => 1,
            PowerMode::DeepSleep => 2,
        }
    }
}

} // verus!
