//! Status codes of the radio's command-and-status execution engine: the
//! immediate-command acknowledgement codes, and the operation-status
//! words of standard and proprietary-mode radio operations.
//!
//! An operation's status word moves `Idle -> Pending -> Active` and then
//! reaches exactly one terminal `Done*` or `Error*` value. The class of a
//! word is carried in its bits 8 to 11: zero while not terminal, `0x4`
//! for the done class, `0x8` for the error class, in both families.

use vstd::prelude::*;

verus! {

/// Acknowledgement status of an immediate or direct command.
#[derive(Copy, Clone, Debug, PartialEq, Eq, Structural)]
pub enum CmdrStatus {
    /// Command has not been parsed yet.
    Pending,
    /// The command was parsed and accepted.
    Done,
    /// The command processor was not powered when the command was issued.
    Failure,
    /// The pointer signalled in the command register is not valid.
    IllegalPointer,
    /// The command number in the command structure is unknown.
    UnknownCommand,
    /// The direct command number is unknown or not a direct command.
    UnknownDirCommand,
    /// The command was issued in a context where it is not supported.
    ContextError,
    /// A radio operation was scheduled while another was running.
    SchedulingError,
    /// Errors in command parameters parsed on submission.
    ParError,
    /// A queue operation was not supported in the queue's current state.
    QueueError,
    /// A data entry was operated on while busy.
    QueueBusy,
}

/// The acknowledgement code of each status.
pub open spec fn cmdr_status_code(s: CmdrStatus) -> u32 {
    match s {
        CmdrStatus::Pending => 0x00,
        CmdrStatus::Done => 0x01,
        CmdrStatus::Failure => 0x80,
        CmdrStatus::IllegalPointer => 0x81,
        CmdrStatus::UnknownCommand => 0x82,
        CmdrStatus::UnknownDirCommand => 0x83,
        CmdrStatus::ContextError => 0x85,
        CmdrStatus::SchedulingError => 0x86,
        CmdrStatus::ParError => 0x87,
        CmdrStatus::QueueError => 0x88,
        CmdrStatus::QueueBusy => 0x89,
    }
}

/// The status a raw acknowledgement word decodes to, if any.
pub open spec fn spec_cmdr_status_from(v: u32) -> Option<CmdrStatus> {
    if v == 0x00 {
        Some(CmdrStatus::Pending)
    } else if v == 0x01 {
        Some(CmdrStatus::Done)
    } else if v == 0x80 {
        Some(CmdrStatus::Failure)
    } else if v == 0x81 {
        Some(CmdrStatus::IllegalPointer)
    } else if v == 0x82 {
        Some(CmdrStatus::UnknownCommand)
    } else if v == 0x83 {
        Some(CmdrStatus::UnknownDirCommand)
    } else if v == 0x85 {
        Some(CmdrStatus::ContextError)
    } else if v == 0x86 {
        Some(CmdrStatus::SchedulingError)
    } else if v == 0x87 {
        Some(CmdrStatus::ParError)
    } else if v == 0x88 {
        Some(CmdrStatus::QueueError)
    } else if v == 0x89 {
        Some(CmdrStatus::QueueBusy)
    } else {
        None
    }
}

impl CmdrStatus {
    /// The raw acknowledgement code of this status.
    pub fn code(&self) -> (r: u32)
        ensures
            r == cmdr_status_code(*self),
    {
        match *self {
            CmdrStatus::Pending => 0x00,
            CmdrStatus::Done => 0x01,
            CmdrStatus::Failure => 0x80,
            CmdrStatus::IllegalPointer => 0x81,
            CmdrStatus::UnknownCommand => 0x82,
            CmdrStatus::UnknownDirCommand => 0x83,
            CmdrStatus::ContextError => 0x85,
            CmdrStatus::SchedulingError => 0x86,
            CmdrStatus::ParError => 0x87,
            CmdrStatus::QueueError => 0x88,
            CmdrStatus::QueueBusy => 0x89,
        }
    }

    /// Decode a raw acknowledgement word.
    pub fn from_u32(v: u32) -> (r: Option<CmdrStatus>)
        ensures
            r == spec_cmdr_status_from(v),
    {
        if v == 0x00 {
            Some(CmdrStatus::Pending)
        } else if v == 0x01 {
            Some(CmdrStatus::Done)
        } else if v == 0x80 {
            Some(CmdrStatus::Failure)
        } else if v == 0x81 {
            Some(CmdrStatus::IllegalPointer)
        } else if v == 0x82 {
            Some(CmdrStatus::UnknownCommand)
        } else if v == 0x83 {
            Some(CmdrStatus::UnknownDirCommand)
        } else if v == 0x85 {
            Some(CmdrStatus::ContextError)
        } else if v == 0x86 {
            Some(CmdrStatus::SchedulingError)
        } else if v == 0x87 {
            Some(CmdrStatus::ParError)
        } else if v == 0x88 {
            Some(CmdrStatus::QueueError)
        } else if v == 0x89 {
            Some(CmdrStatus::QueueBusy)
        } else {
            None
        }
    }
}

/// Result of issuing an immediate or direct command.
pub type CmdrReturnCode = Result<(), CmdrStatus>;

/// Status word of a standard radio operation.
#[derive(Copy, Clone, Debug, PartialEq, Eq, Structural)]
pub enum RfcOpStatus {
    /// Operation has not started.
    Idle,
    /// Waiting for the start trigger.
    Pending,
    /// Running.
    Active,
    /// Skipped due to a condition in another command.
    Skipped,
    /// Ended normally.
    DoneOk,
    /// Counter reached zero.
    DoneCountdown,
    /// Ended with a frame-check error.
    DoneRxErr,
    /// Ended with a time-out.
    DoneTimeout,
    /// Stopped after a stop command.
    DoneStopped,
    /// Aborted by an abort command.
    DoneAbort,
    /// The start trigger occurred in the past.
    ErrorPastStart,
    /// Illegal start trigger parameter.
    ErrorStartTrig,
    /// Illegal condition for the next operation.
    ErrorCondition,
    /// Error in a command-specific parameter.
    ErrorPar,
    /// Invalid pointer to the next operation.
    ErrorPointer,
    /// The next operation's command number is not a radio operation.
    ErrorCmdId,
    /// RX, TX or synthesizer use attempted without radio setup.
    ErrorNoSetup,
    /// RX or TX attempted without the synthesizer programmed.
    ErrorNoFs,
    /// Synthesizer programming failed.
    ErrorSynthProg,
    /// Modem transmit underflow.
    ErrorTxUnf,
    /// Modem receive overflow.
    ErrorRxOvf,
    /// Data requested from the last RX when no such data exists.
    ErrorNoRx,
}

/// The status word of each standard operation status.
pub open spec fn op_status_code(s: RfcOpStatus) -> u16 {
    match s {
        RfcOpStatus::Idle => 0x0000,
        RfcOpStatus::Pending => 0x0001,
        RfcOpStatus::Active => 0x0002,
        RfcOpStatus::Skipped => 0x0003,
        RfcOpStatus::DoneOk => 0x0400,
        RfcOpStatus::DoneCountdown => 0x0401,
        RfcOpStatus::DoneRxErr => 0x0402,
        RfcOpStatus::DoneTimeout => 0x0403,
        RfcOpStatus::DoneStopped => 0x0404,
        RfcOpStatus::DoneAbort => 0x0405,
        RfcOpStatus::ErrorPastStart => 0x0800,
        RfcOpStatus::ErrorStartTrig => 0x0801,
        RfcOpStatus::ErrorCondition => 0x0802,
        RfcOpStatus::ErrorPar => 0x0803,
        RfcOpStatus::ErrorPointer => 0x0804,
        RfcOpStatus::ErrorCmdId => 0x0805,
        RfcOpStatus::ErrorNoSetup => 0x0807,
        RfcOpStatus::ErrorNoFs => 0x0808,
        RfcOpStatus::ErrorSynthProg => 0x0809,
        RfcOpStatus::ErrorTxUnf => 0x080A,
        RfcOpStatus::ErrorRxOvf => 0x080B,
        RfcOpStatus::ErrorNoRx => 0x080C,
    }
}

impl RfcOpStatus {
    /// The raw status word of this status.
    pub fn code(&self) -> (r: u16)
        ensures
            r == op_status_code(*self),
    {
        match *self {
            RfcOpStatus::Idle => 0x0000,
            RfcOpStatus::Pending => 0x0001,
            RfcOpStatus::Active => 0x0002,
            RfcOpStatus::Skipped => 0x0003,
            RfcOpStatus::DoneOk => 0x0400,
            RfcOpStatus::DoneCountdown => 0x0401,
            RfcOpStatus::DoneRxErr => 0x0402,
            RfcOpStatus::DoneTimeout => 0x0403,
            RfcOpStatus::DoneStopped => 0x0404,
            RfcOpStatus::DoneAbort => 0x0405,
            RfcOpStatus::ErrorPastStart => 0x0800,
            RfcOpStatus::ErrorStartTrig => 0x0801,
            RfcOpStatus::ErrorCondition => 0x0802,
            RfcOpStatus::ErrorPar => 0x0803,
            RfcOpStatus::ErrorPointer => 0x0804,
            RfcOpStatus::ErrorCmdId => 0x0805,
            RfcOpStatus::ErrorNoSetup => 0x0807,
            RfcOpStatus::ErrorNoFs => 0x0808,
            RfcOpStatus::ErrorSynthProg => 0x0809,
            RfcOpStatus::ErrorTxUnf => 0x080A,
            RfcOpStatus::ErrorRxOvf => 0x080B,
            RfcOpStatus::ErrorNoRx => 0x080C,
        }
    }
}

/// Status word of a proprietary-mode radio operation.
#[derive(Copy, Clone, Debug, PartialEq, Eq, Structural)]
pub enum RfcPropStatus {
    /// Operation has not started.
    Idle,
    /// Waiting for the start trigger.
    Pending,
    /// Running.
    Active,
    /// Ended normally.
    PropDoneOk,
    /// Stopped after the end trigger while waiting for sync.
    PropDoneRxTimeout,
    /// RX stopped due to a time-out in the middle of a packet.
    PropDoneBreak,
    /// Stopped after the end trigger during reception.
    PropDoneEnded,
    /// Stopped after a stop command.
    PropDoneStopped,
    /// Aborted by an abort command.
    PropDoneAbort,
    /// Ended after receiving a packet with a frame-check error.
    PropDoneRxErr,
    /// Carrier-sense ended because of an idle channel.
    PropDoneIdle,
    /// Carrier-sense ended because of a busy channel.
    PropDoneBusy,
    /// Carrier-sense ended by time-out, resolved as idle.
    PropDoneIdleTimeout,
    /// Carrier-sense ended by time-out, resolved as busy.
    PropDoneBusyTimeout,
    /// Illegal parameter.
    PropErrorPar,
    /// No receive buffer large enough at the start of a packet.
    PropErrorRxBuf,
    /// Out of receive buffer space during a partial read.
    PropErrorRxFull,
    /// The radio was not set up in proprietary mode.
    PropErrorNoSetup,
    /// The synthesizer was not programmed for RX or TX.
    PropErrorNoFs,
    /// Receive overflow observed.
    PropErrorRxOvf,
    /// Transmit underflow observed.
    PropErrorTxUnf,
}

/// The status word of each proprietary operation status.
pub open spec fn prop_status_code(s: RfcPropStatus) -> u16 {
    match s {
        RfcPropStatus::Idle => 0x0000,
        RfcPropStatus::Pending => 0x0001,
        RfcPropStatus::Active => 0x0002,
        RfcPropStatus::PropDoneOk => 0x3400,
        RfcPropStatus::PropDoneRxTimeout => 0x3401,
        RfcPropStatus::PropDoneBreak => 0x3402,
        RfcPropStatus::PropDoneEnded => 0x3403,
        RfcPropStatus::PropDoneStopped => 0x3404,
        RfcPropStatus::PropDoneAbort => 0x3405,
        RfcPropStatus::PropDoneRxErr => 0x3406,
        RfcPropStatus::PropDoneIdle => 0x3407,
        RfcPropStatus::PropDoneBusy => 0x3408,
        RfcPropStatus::PropDoneIdleTimeout => 0x3409,
        RfcPropStatus::PropDoneBusyTimeout => 0x340A,
        RfcPropStatus::PropErrorPar => 0x3800,
        RfcPropStatus::PropErrorRxBuf => 0x3801,
        RfcPropStatus::PropErrorRxFull => 0x3802,
        RfcPropStatus::PropErrorNoSetup => 0x3803,
        RfcPropStatus::PropErrorNoFs => 0x3804,
        RfcPropStatus::PropErrorRxOvf => 0x3805,
        RfcPropStatus::PropErrorTxUnf => 0x3806,
    }
}

impl RfcPropStatus {
    /// The raw status word of this status.
    pub fn code(&self) -> (r: u16)
        ensures
            r == prop_status_code(*self),
    {
        match *self {
            RfcPropStatus::Idle => 0x0000,
            RfcPropStatus::Pending => 0x0001,
            RfcPropStatus::Active => 0x0002,
            RfcPropStatus::PropDoneOk => 0x3400,
            RfcPropStatus::PropDoneRxTimeout => 0x3401,
            RfcPropStatus::PropDoneBreak => 0x3402,
            RfcPropStatus::PropDoneEnded => 0x3403,
            RfcPropStatus::PropDoneStopped => 0x3404,
            RfcPropStatus::PropDoneAbort => 0x3405,
            RfcPropStatus::PropDoneRxErr => 0x3406,
            RfcPropStatus::PropDoneIdle => 0x3407,
            RfcPropStatus::PropDoneBusy => 0x3408,
            RfcPropStatus::PropDoneIdleTimeout => 0x3409,
            RfcPropStatus::PropDoneBusyTimeout => 0x340A,
            RfcPropStatus::PropErrorPar => 0x3800,
            RfcPropStatus::PropErrorRxBuf => 0x3801,
            RfcPropStatus::PropErrorRxFull => 0x3802,
            RfcPropStatus::PropErrorNoSetup => 0x3803,
            RfcPropStatus::PropErrorNoFs => 0x3804,
            RfcPropStatus::PropErrorRxOvf => 0x3805,
            RfcPropStatus::PropErrorTxUnf => 0x3806,
        }
    }
}

/// Result of a proprietary-mode operation.
pub type PropReturnCode = Result<(), RfcPropStatus>;

/// A status word on which a polling caller keeps waiting: the operation
/// has not yet reached a terminal class.
pub open spec fn status_in_progress(v: u16) -> bool {
    v & 0x0F00 == 0x0000
}

/// A status word of the done class (standard or proprietary family).
pub open spec fn status_done_class(v: u16) -> bool {
    v & 0x0F00 == 0x0400
}

/// A status word of the error class (standard or proprietary family).
pub open spec fn status_error_class(v: u16) -> bool {
    v & 0x0F00 == 0x0800
}

} // verus!
