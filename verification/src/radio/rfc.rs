//! The radio command processor: issues direct, synchronous and
//! asynchronous commands to the physical radio core and tracks command
//! status.
//!
//! The processor is modelled as an owned state machine. The doorbell
//! write and the status-register read live in the surrounding runtime:
//! it hands the raw acknowledgement word (for direct and submitted
//! commands) and the operation's status word (for polling) into the
//! decision functions here, which are verified for every value the
//! hardware could report.

use crate::radio::commands::{collect_overrides, table_terminated, RadioCommand};
use crate::radio::status_codes::{
    spec_cmdr_status_from, status_done_class, status_in_progress, CmdrReturnCode, CmdrStatus,
};
use vstd::prelude::*;

verus! {

/// Firmware mode the command processor is patched for.
#[allow(non_camel_case_types)]
#[derive(Copy, Clone, Debug, PartialEq, Eq, Structural)]
pub enum RfcMode {
    BLE,
    Gfsk,
    LongRange,
}

/// The result an acknowledgement word decodes to: the command was
/// accepted only when the word reads `Done`; any other word is the
/// failure it names, and a word outside the table is a dispatch failure.
pub open spec fn cmdr_result(v: u32) -> CmdrReturnCode {
    if v == 0x01 {
        Ok(())
    } else {
        match spec_cmdr_status_from(v) {
            Some(s) => Err(s),
            None => Err(CmdrStatus::Failure),
        }
    }
}

/// Decode a raw acknowledgement word into the command result.
pub fn decode_cmdsta(cmdsta: u32) -> (r: CmdrReturnCode)
    ensures
        r == cmdr_result(cmdsta),
{
    if cmdsta == 0x01 {
        Ok(())
    } else {
        match CmdrStatus::from_u32(cmdsta) {
            Some(s) => Err(s),
            None => Err(CmdrStatus::Failure),
        }
    }
}

/// Owned model of the radio command processor: power and timer state,
/// the active firmware mode, the last acknowledgement word, and the
/// radio operation currently submitted, if any.
pub struct RFCore {
    /// Firmware mode selected for the next power-up.
    pub mode: Option<RfcMode>,
    /// Whether the radio core's power domain is enabled.
    pub enabled: bool,
    /// Whether the radio's internal timer is running.
    pub rat_running: bool,
    /// The last raw acknowledgement or status word, kept for diagnostics.
    pub status: u32,
    /// Command number of the radio operation in flight, if any.
    pub pending_op: Option<u16>,
}

impl RFCore {
    /// A powered-down command processor with no mode selected.
    pub fn new() -> (r: RFCore)
        ensures
            r.mode is None,
            !r.enabled,
            !r.rat_running,
            r.status == 0,
            r.pending_op is None,
    {
        RFCore { mode: None, enabled: false, rat_running: false, status: 0, pending_op: None }
    }

    /// Select the firmware mode for the next power-up.
    pub fn set_mode(&mut self, mode: RfcMode)
        ensures
            final(self).mode == Some(mode),
            final(self).enabled == old(self).enabled,
            final(self).rat_running == old(self).rat_running,
            final(self).status == old(self).status,
            final(self).pending_op == old(self).pending_op,
    {
        self.mode = Some(mode);
    }

    /// Enable the radio core's power domain.
    pub fn enable(&mut self)
        ensures
            final(self).enabled,
            final(self).mode == old(self).mode,
            final(self).rat_running == old(self).rat_running,
            final(self).status == old(self).status,
            final(self).pending_op == old(self).pending_op,
    {
        self.enabled = true;
    }

    /// Disable the radio core's power domain; the timer stops and any
    /// in-flight operation is abandoned.
    pub fn disable(&mut self)
        ensures
            !final(self).enabled,
            !final(self).rat_running,
            final(self).pending_op is None,
            final(self).mode == old(self).mode,
            final(self).status == old(self).status,
    {
        self.enabled = false;
        self.rat_running = false;
        self.pending_op = None;
    }

    /// Start the radio's internal timer.
    pub fn start_rat(&mut self)
        requires
            old(self).enabled,
        ensures
            final(self).rat_running,
            final(self).enabled == old(self).enabled,
            final(self).mode == old(self).mode,
            final(self).status == old(self).status,
            final(self).pending_op == old(self).pending_op,
    {
        self.rat_running = true;
    }

    /// Stop the radio's internal timer.
    pub fn stop_rat(&mut self)
        ensures
            !final(self).rat_running,
            final(self).enabled == old(self).enabled,
            final(self).mode == old(self).mode,
            final(self).status == old(self).status,
            final(self).pending_op == old(self).pending_op,
    {
        self.rat_running = false;
    }

    /// Issue a one-word immediate command. `cmdsta` is the
    /// acknowledgement word the doorbell reported. With the power domain
    /// off nothing is issued and the dispatch fails.
    pub fn send_direct(&mut self, cmd: &crate::radio::commands::DirectCommand, cmdsta: u32) -> (r:
        CmdrReturnCode)
        ensures
            !old(self).enabled ==> r == Err::<(), CmdrStatus>(CmdrStatus::Failure) && *final(self)
                == *old(self),
            old(self).enabled ==> r == cmdr_result(cmdsta) && final(self).status == cmdsta
                && final(self).enabled == old(self).enabled && final(self).mode == old(self).mode
                && final(self).rat_running == old(self).rat_running && final(self).pending_op
                == old(self).pending_op,
    {
        let _ = cmd.get_command_no();
        if !self.enabled {
            return Err(CmdrStatus::Failure);
        }
        self.status = cmdsta;
        decode_cmdsta(cmdsta)
    }

    /// Submit a radio operation record and block until the command
    /// processor acknowledges the submission; `cmdsta` is the
    /// acknowledgement word. On acceptance the operation is in flight.
    pub fn send_sync<T: RadioCommand>(&mut self, cmd: &T, cmdsta: u32) -> (r: CmdrReturnCode)
        ensures
            !old(self).enabled ==> r == Err::<(), CmdrStatus>(CmdrStatus::Failure) && *final(self)
                == *old(self),
            old(self).enabled ==> r == cmdr_result(cmdsta) && final(self).status == cmdsta
                && final(self).enabled == old(self).enabled && final(self).mode == old(self).mode
                && final(self).rat_running == old(self).rat_running,
            old(self).enabled && cmdr_result(cmdsta) is Ok ==> final(self).pending_op == Some(
                cmd.spec_command_no(),
            ),
            old(self).enabled && cmdr_result(cmdsta) is Err ==> final(self).pending_op == old(
                self,
            ).pending_op,
    {
        if !self.enabled {
            return Err(CmdrStatus::Failure);
        }
        self.status = cmdsta;
        let r = decode_cmdsta(cmdsta);
        if r.is_ok() {
            self.pending_op = Some(cmd.get_command_no());
        }
        r
    }

    /// Submit a radio operation record and return immediately;
    /// completion is signalled later through the interrupt callbacks.
    /// The submission semantics are those of `send_sync`.
    pub fn send_async<T: RadioCommand>(&mut self, cmd: &T, cmdsta: u32) -> (r: CmdrReturnCode)
        ensures
            !old(self).enabled ==> r == Err::<(), CmdrStatus>(CmdrStatus::Failure) && *final(self)
                == *old(self),
            old(self).enabled ==> r == cmdr_result(cmdsta) && final(self).status == cmdsta
                && final(self).enabled == old(self).enabled && final(self).mode == old(self).mode
                && final(self).rat_running == old(self).rat_running,
            old(self).enabled && cmdr_result(cmdsta) is Ok ==> final(self).pending_op == Some(
                cmd.spec_command_no(),
            ),
            old(self).enabled && cmdr_result(cmdsta) is Err ==> final(self).pending_op == old(
                self,
            ).pending_op,
    {
        self.send_sync(cmd, cmdsta)
    }

    /// One polling step of a blocking wait on an operation's status
    /// word: keep polling while the word has not reached a terminal
    /// class; a done-class word is success, anything else terminal is a
    /// failure carrying the word. On a terminal word the operation is no
    /// longer in flight.
    pub fn wait(&mut self, op_status: u16) -> (r: Option<Result<(), u16>>)
        ensures
            status_in_progress(op_status) ==> r is None && *final(self) == *old(self),
            !status_in_progress(op_status) ==> final(self).pending_op is None && final(self).status
                == op_status && final(self).enabled == old(self).enabled && final(self).mode
                == old(self).mode && final(self).rat_running == old(self).rat_running,
            !status_in_progress(op_status) && status_done_class(op_status) ==> r == Some(
                Ok::<(), u16>(()),
            ),
            !status_in_progress(op_status) && !status_done_class(op_status) ==> r == Some(
                Err::<(), u16>(op_status),
            ),
    {
        if op_status & 0x0F00 == 0x0000 {
            None
        } else {
            self.pending_op = None;
            self.status = op_status as u32;
            if op_status & 0x0F00 == 0x0400 {
                Some(Ok(()))
            } else {
                Some(Err(op_status))
            }
        }
    }

    /// Apply the mode-specific register override tables before radio
    /// operation: each table is consumed exactly up to and including its
    /// first sentinel word, and the words actually applied are returned
    /// for the runtime to patch into the analog configuration.
    pub fn setup(
        &mut self,
        reg_overrides: &Vec<u32>,
        tx_std_overrides: &Vec<u32>,
        tx_20_overrides: &Vec<u32>,
        tx_power: u16,
    ) -> (applied: (Vec<u32>, Vec<u32>, Vec<u32>))
        requires
            table_terminated(reg_overrides@),
            table_terminated(tx_std_overrides@),
            table_terminated(tx_20_overrides@),
        ensures
            final(self).enabled == old(self).enabled,
            final(self).mode == old(self).mode,
            final(self).rat_running == old(self).rat_running,
            final(self).status == old(self).status,
            final(self).pending_op == old(self).pending_op,
            applied.0@ == reg_overrides@.subrange(0, applied.0@.len() as int),
            1 <= applied.0@.len() <= reg_overrides@.len() && applied.0@[applied.0@.len() - 1]
                == crate::radio::commands::OVERRIDE_SENTINEL,
            forall|j: int|
                0 <= j < applied.0@.len() - 1 ==> applied.0@[j]
                    != crate::radio::commands::OVERRIDE_SENTINEL,
            applied.1@ == tx_std_overrides@.subrange(0, applied.1@.len() as int),
            1 <= applied.1@.len() <= tx_std_overrides@.len() && applied.1@[applied.1@.len() - 1]
                == crate::radio::commands::OVERRIDE_SENTINEL,
            forall|j: int|
                0 <= j < applied.1@.len() - 1 ==> applied.1@[j]
                    != crate::radio::commands::OVERRIDE_SENTINEL,
            applied.2@ == tx_20_overrides@.subrange(0, applied.2@.len() as int),
            1 <= applied.2@.len() <= tx_20_overrides@.len() && applied.2@[applied.2@.len() - 1]
                == crate::radio::commands::OVERRIDE_SENTINEL,
            forall|j: int|
                0 <= j < applied.2@.len() - 1 ==> applied.2@[j]
                    != crate::radio::commands::OVERRIDE_SENTINEL,
    {
        let _ = tx_power;
        let reg = collect_overrides(reg_overrides);
        let tx_std = collect_overrides(tx_std_overrides);
        let tx_20 = collect_overrides(tx_20_overrides);
        (reg, tx_std, tx_20)
    }
}

} // verus!
