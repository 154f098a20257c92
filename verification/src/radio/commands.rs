//! Radio command records and their fixed binary layouts.
//!
//! Every radio operation is described by a fixed-layout record written
//! into a word-aligned command buffer and submitted to the command
//! processor. The records here carry plain fields; bus addresses (next
//! operation, packet and queue pointers) are plain words filled in by
//! the runtime that owns the physical memory map. Register override
//! tables are arrays of raw words terminated by a sentinel word, and
//! consumers iterate only up to and including the first sentinel.

use vstd::prelude::*;

verus! {

// Immediate command numbers of the command processor.
pub const RFC_CMD0: u16 = 0x607;

pub const RFC_PING: u16 = 0x406;

pub const RFC_BUS_REQUEST: u16 = 0x40E;

pub const RFC_START_RAT_TIMER: u16 = 0x080A;

pub const RFC_STOP_RAT_TIMER: u16 = 0x0809;

pub const RFC_SETUP: u16 = 0x0802;

pub const RFC_STOP: u16 = 0x0402;

pub const RFC_FS_POWERDOWN: u16 = 0x080D;

/// The word terminating every register override table.
pub const OVERRIDE_SENTINEL: u32 = 0xFFFFFFFF;

/// A record that can be submitted to the radio command processor; it
/// reports its own command number.
pub trait RadioCommand {
    /// The command number of this record, as a specification value.
    spec fn spec_command_no(&self) -> u16;

    /// The command number of this record.
    fn get_command_no(&self) -> (r: u16)
        ensures
            r == self.spec_command_no(),
    ;
}

/// A one-word immediate command: no memory-resident structure.
#[derive(Copy, Clone, Debug, PartialEq, Eq, Structural)]
pub struct DirectCommand {
    pub command_no: u16,
    pub params: u16,
}

impl DirectCommand {
    /// Build a direct command from its number and parameter half-word.
    pub fn new(command_no: u16, params: u16) -> (r: DirectCommand)
        ensures
            r.command_no == command_no,
            r.params == params,
    {
        DirectCommand { command_no, params }
    }
}

impl RadioCommand for DirectCommand {
    open spec fn spec_command_no(&self) -> u16 {
        self.command_no
    }

    fn get_command_no(&self) -> (r: u16) {
        self.command_no
    }
}

/// The fields every radio operation record starts with, as read back
/// from the command buffer.
#[derive(Copy, Clone, Debug, PartialEq, Eq, Structural)]
pub struct CommandCommon {
    pub command_no: u16,
    pub status: u16,
    pub p_nextop: u32,
    pub ratmr: u32,
    pub start_trigger: u8,
    pub condition: RfcCondition,
}

/// Immediate command adding a data entry to a receive queue.
#[derive(Copy, Clone, Debug, PartialEq, Eq, Structural)]
pub struct AddDataEntry {
    pub command_no: u16,
    pub _reserved: u16,
    pub p_queue: u32,
    pub p_entry: u32,
}

impl RadioCommand for AddDataEntry {
    open spec fn spec_command_no(&self) -> u16 {
        self.command_no
    }

    fn get_command_no(&self) -> (r: u16) {
        self.command_no
    }
}

/// Hardware bit layout `RfcTrigger`: the raw word with field setters
/// whose contracts state the exact bit arithmetic.
#[derive(Copy, Clone, Debug, PartialEq, Eq, Structural)]
pub struct RfcTrigger(pub u8);

impl RfcTrigger {
    /// Set bits 0 to 3.
    pub fn set_trigger_type(&mut self, v: u8)
        ensures
            final(self).0 == (old(self).0 & !0xfu8) | ((v & 0xfu8) << 0u32),
    {
        self.0 = (self.0 & !0xf) | ((v & 0xf) << 0u32);
    }

    /// Set bit 4.
    pub fn set_enable_cmd(&mut self, v: bool)
        ensures
            final(self).0 == if v { old(self).0 | 0x10u8 } else { old(self).0 & !0x10u8 },
    {
        if v {
            self.0 = self.0 | 0x10;
        } else {
            self.0 = self.0 & !0x10;
        }
    }

    /// Set bits 5 to 6.
    pub fn set_trigger_no(&mut self, v: u8)
        ensures
            final(self).0 == (old(self).0 & !0x60u8) | ((v & 0x3u8) << 5u32),
    {
        self.0 = (self.0 & !0x60) | ((v & 0x3) << 5u32);
    }

    /// Set bit 7.
    pub fn set_past_trigger(&mut self, v: bool)
        ensures
            final(self).0 == if v { old(self).0 | 0x80u8 } else { old(self).0 & !0x80u8 },
    {
        if v {
            self.0 = self.0 | 0x80;
        } else {
            self.0 = self.0 & !0x80;
        }
    }
}

/// Hardware bit layout `RfcCondition`: the raw word with field setters
/// whose contracts state the exact bit arithmetic.
#[derive(Copy, Clone, Debug, PartialEq, Eq, Structural)]
pub struct RfcCondition(pub u8);

impl RfcCondition {
    /// Set bits 0 to 3.
    pub fn set_rule(&mut self, v: u8)
        ensures
            final(self).0 == (old(self).0 & !0xfu8) | ((v & 0xfu8) << 0u32),
    {
        self.0 = (self.0 & !0xf) | ((v & 0xf) << 0u32);
    }
}

/// Hardware bit layout `RfcSetupConfig`: the raw word with field setters
/// whose contracts state the exact bit arithmetic.
#[derive(Copy, Clone, Debug, PartialEq, Eq, Structural)]
pub struct RfcSetupConfig(pub u16);

impl RfcSetupConfig {
    /// Set bits 0 to 2.
    pub fn set_frontend_mode(&mut self, v: u16)
        ensures
            final(self).0 == (old(self).0 & !0x7u16) | ((v & 0x7u16) << 0u32),
    {
        self.0 = (self.0 & !0x7) | ((v & 0x7) << 0u32);
    }

    /// Set bit 3.
    pub fn set_bias_mode(&mut self, v: bool)
        ensures
            final(self).0 == if v { old(self).0 | 0x8u16 } else { old(self).0 & !0x8u16 },
    {
        if v {
            self.0 = self.0 | 0x8;
        } else {
            self.0 = self.0 & !0x8;
        }
    }

    /// Set bits 4 to 9.
    pub fn set_analog_config_mode(&mut self, v: u16)
        ensures
            final(self).0 == (old(self).0 & !0x3f0u16) | ((v & 0x3fu16) << 4u32),
    {
        self.0 = (self.0 & !0x3f0) | ((v & 0x3f) << 4u32);
    }

    /// Set bit 10.
    pub fn set_no_fs_powerup(&mut self, v: bool)
        ensures
            final(self).0 == if v { old(self).0 | 0x400u16 } else { old(self).0 & !0x400u16 },
    {
        if v {
            self.0 = self.0 | 0x400;
        } else {
            self.0 = self.0 & !0x400;
        }
    }
}

/// Hardware bit layout `RfcModulation`: the raw word with field setters
/// whose contracts state the exact bit arithmetic.
#[derive(Copy, Clone, Debug, PartialEq, Eq, Structural)]
pub struct RfcModulation(pub u16);

impl RfcModulation {
    /// Set bits 0 to 2.
    pub fn set_mod_type(&mut self, v: u16)
        ensures
            final(self).0 == (old(self).0 & !0x7u16) | ((v & 0x7u16) << 0u32),
    {
        self.0 = (self.0 & !0x7) | ((v & 0x7) << 0u32);
    }

    /// Set bits 3 to 13.
    pub fn set_deviation(&mut self, v: u16)
        ensures
            final(self).0 == (old(self).0 & !0x3ff8u16) | ((v & 0x7ffu16) << 3u32),
    {
        self.0 = (self.0 & !0x3ff8) | ((v & 0x7ff) << 3u32);
    }

    /// Set bits 14 to 15.
    pub fn set_deviation_step(&mut self, v: u16)
        ensures
            final(self).0 == (old(self).0 & !0xc000u16) | ((v & 0x3u16) << 14u32),
    {
        self.0 = (self.0 & !0xc000) | ((v & 0x3) << 14u32);
    }
}

/// Hardware bit layout `RfcSymbolRate`: the raw word with field setters
/// whose contracts state the exact bit arithmetic.
#[derive(Copy, Clone, Debug, PartialEq, Eq, Structural)]
pub struct RfcSymbolRate(pub u32);

impl RfcSymbolRate {
    /// Set bits 0 to 7.
    pub fn set_prescale(&mut self, v: u32)
        ensures
            final(self).0 == (old(self).0 & !0xffu32) | ((v & 0xffu32) << 0u32),
    {
        self.0 = (self.0 & !0xff) | ((v & 0xff) << 0u32);
    }

    /// Set bits 8 to 28.
    pub fn set_rate_word(&mut self, v: u32)
        ensures
            final(self).0 == (old(self).0 & !0x1fffff00u32) | ((v & 0x1fffffu32) << 8u32),
    {
        self.0 = (self.0 & !0x1fffff00) | ((v & 0x1fffff) << 8u32);
    }
}

/// Hardware bit layout `RfcPreambleConf`: the raw word with field setters
/// whose contracts state the exact bit arithmetic.
#[derive(Copy, Clone, Debug, PartialEq, Eq, Structural)]
pub struct RfcPreambleConf(pub u8);

impl RfcPreambleConf {
    /// Set bits 0 to 5.
    pub fn set_num_preamble_bytes(&mut self, v: u8)
        ensures
            final(self).0 == (old(self).0 & !0x3fu8) | ((v & 0x3fu8) << 0u32),
    {
        self.0 = (self.0 & !0x3f) | ((v & 0x3f) << 0u32);
    }

    /// Set bit 6.
    pub fn set_pream_mode(&mut self, v: bool)
        ensures
            final(self).0 == if v { old(self).0 | 0x40u8 } else { old(self).0 & !0x40u8 },
    {
        if v {
            self.0 = self.0 | 0x40;
        } else {
            self.0 = self.0 & !0x40;
        }
    }
}

/// Hardware bit layout `RfcFormatConf`: the raw word with field setters
/// whose contracts state the exact bit arithmetic.
#[derive(Copy, Clone, Debug, PartialEq, Eq, Structural)]
pub struct RfcFormatConf(pub u16);

impl RfcFormatConf {
    /// Set bits 0 to 5.
    pub fn set_num_syncword_bits(&mut self, v: u16)
        ensures
            final(self).0 == (old(self).0 & !0x3fu16) | ((v & 0x3fu16) << 0u32),
    {
        self.0 = (self.0 & !0x3f) | ((v & 0x3f) << 0u32);
    }

    /// Set bit 6.
    pub fn set_bit_reversal(&mut self, v: bool)
        ensures
            final(self).0 == if v { old(self).0 | 0x40u16 } else { old(self).0 & !0x40u16 },
    {
        if v {
            self.0 = self.0 | 0x40;
        } else {
            self.0 = self.0 & !0x40;
        }
    }

    /// Set bit 7.
    pub fn set_msb_first(&mut self, v: bool)
        ensures
            final(self).0 == if v { old(self).0 | 0x80u16 } else { old(self).0 & !0x80u16 },
    {
        if v {
            self.0 = self.0 | 0x80;
        } else {
            self.0 = self.0 & !0x80;
        }
    }

    /// Set bits 8 to 11.
    pub fn set_fec_mode(&mut self, v: u16)
        ensures
            final(self).0 == (old(self).0 & !0xf00u16) | ((v & 0xfu16) << 8u32),
    {
        self.0 = (self.0 & !0xf00) | ((v & 0xf) << 8u32);
    }

    /// Set bits 13 to 15.
    pub fn set_whiten_mode(&mut self, v: u16)
        ensures
            final(self).0 == (old(self).0 & !0xe000u16) | ((v & 0x7u16) << 13u32),
    {
        self.0 = (self.0 & !0xe000) | ((v & 0x7) << 13u32);
    }
}

/// Hardware bit layout `RfcPacketConfTx`: the raw word with field setters
/// whose contracts state the exact bit arithmetic.
#[derive(Copy, Clone, Debug, PartialEq, Eq, Structural)]
pub struct RfcPacketConfTx(pub u8);

impl RfcPacketConfTx {
    /// Set bit 0.
    pub fn set_fs_off(&mut self, v: bool)
        ensures
            final(self).0 == if v { old(self).0 | 0x1u8 } else { old(self).0 & !0x1u8 },
    {
        if v {
            self.0 = self.0 | 0x1;
        } else {
            self.0 = self.0 & !0x1;
        }
    }

    /// Set bit 3.
    pub fn set_use_crc(&mut self, v: bool)
        ensures
            final(self).0 == if v { old(self).0 | 0x8u8 } else { old(self).0 & !0x8u8 },
    {
        if v {
            self.0 = self.0 | 0x8;
        } else {
            self.0 = self.0 & !0x8;
        }
    }

    /// Set bit 4.
    pub fn set_var_len(&mut self, v: bool)
        ensures
            final(self).0 == if v { old(self).0 | 0x10u8 } else { old(self).0 & !0x10u8 },
    {
        if v {
            self.0 = self.0 | 0x10;
        } else {
            self.0 = self.0 & !0x10;
        }
    }
}

/// Hardware bit layout `RfcPacketConfRx`: the raw word with field setters
/// whose contracts state the exact bit arithmetic.
#[derive(Copy, Clone, Debug, PartialEq, Eq, Structural)]
pub struct RfcPacketConfRx(pub u8);

impl RfcPacketConfRx {
    /// Set bit 0.
    pub fn set_fs_off(&mut self, v: bool)
        ensures
            final(self).0 == if v { old(self).0 | 0x1u8 } else { old(self).0 & !0x1u8 },
    {
        if v {
            self.0 = self.0 | 0x1;
        } else {
            self.0 = self.0 & !0x1;
        }
    }

    /// Set bit 1.
    pub fn set_brepeat_ok(&mut self, v: bool)
        ensures
            final(self).0 == if v { old(self).0 | 0x2u8 } else { old(self).0 & !0x2u8 },
    {
        if v {
            self.0 = self.0 | 0x2;
        } else {
            self.0 = self.0 & !0x2;
        }
    }

    /// Set bit 2.
    pub fn set_brepeat_nok(&mut self, v: bool)
        ensures
            final(self).0 == if v { old(self).0 | 0x4u8 } else { old(self).0 & !0x4u8 },
    {
        if v {
            self.0 = self.0 | 0x4;
        } else {
            self.0 = self.0 & !0x4;
        }
    }

    /// Set bit 3.
    pub fn set_use_crc(&mut self, v: bool)
        ensures
            final(self).0 == if v { old(self).0 | 0x8u8 } else { old(self).0 & !0x8u8 },
    {
        if v {
            self.0 = self.0 | 0x8;
        } else {
            self.0 = self.0 & !0x8;
        }
    }

    /// Set bit 4.
    pub fn set_var_len(&mut self, v: bool)
        ensures
            final(self).0 == if v { old(self).0 | 0x10u8 } else { old(self).0 & !0x10u8 },
    {
        if v {
            self.0 = self.0 | 0x10;
        } else {
            self.0 = self.0 & !0x10;
        }
    }

    /// Set bit 5.
    pub fn set_check_address(&mut self, v: bool)
        ensures
            final(self).0 == if v { old(self).0 | 0x20u8 } else { old(self).0 & !0x20u8 },
    {
        if v {
            self.0 = self.0 | 0x20;
        } else {
            self.0 = self.0 & !0x20;
        }
    }

    /// Set bit 6.
    pub fn set_end_type(&mut self, v: bool)
        ensures
            final(self).0 == if v { old(self).0 | 0x40u8 } else { old(self).0 & !0x40u8 },
    {
        if v {
            self.0 = self.0 | 0x40;
        } else {
            self.0 = self.0 & !0x40;
        }
    }

    /// Set bit 7.
    pub fn set_filter_op(&mut self, v: bool)
        ensures
            final(self).0 == if v { old(self).0 | 0x80u8 } else { old(self).0 & !0x80u8 },
    {
        if v {
            self.0 = self.0 | 0x80;
        } else {
            self.0 = self.0 & !0x80;
        }
    }
}

/// Hardware bit layout `RfcSynthConf`: the raw word with field setters
/// whose contracts state the exact bit arithmetic.
#[derive(Copy, Clone, Debug, PartialEq, Eq, Structural)]
pub struct RfcSynthConf(pub u8);

impl RfcSynthConf {
    /// Set bit 0.
    pub fn set_tx_mode(&mut self, v: bool)
        ensures
            final(self).0 == if v { old(self).0 | 0x1u8 } else { old(self).0 & !0x1u8 },
    {
        if v {
            self.0 = self.0 | 0x1;
        } else {
            self.0 = self.0 & !0x1;
        }
    }

    /// Set bits 1 to 6.
    pub fn set_ref_freq(&mut self, v: u8)
        ensures
            final(self).0 == (old(self).0 & !0x7eu8) | ((v & 0x3fu8) << 1u32),
    {
        self.0 = (self.0 & !0x7e) | ((v & 0x3f) << 1u32);
    }
}

/// Hardware bit layout `RxConfiguration`: the raw word with field setters
/// whose contracts state the exact bit arithmetic.
#[derive(Copy, Clone, Debug, PartialEq, Eq, Structural)]
pub struct RxConfiguration(pub u8);

impl RxConfiguration {
    /// Set bit 0.
    pub fn set_auto_flush_ignored(&mut self, v: bool)
        ensures
            final(self).0 == if v { old(self).0 | 0x1u8 } else { old(self).0 & !0x1u8 },
    {
        if v {
            self.0 = self.0 | 0x1;
        } else {
            self.0 = self.0 & !0x1;
        }
    }

    /// Set bit 1.
    pub fn set_auto_flush_crc_error(&mut self, v: bool)
        ensures
            final(self).0 == if v { old(self).0 | 0x2u8 } else { old(self).0 & !0x2u8 },
    {
        if v {
            self.0 = self.0 | 0x2;
        } else {
            self.0 = self.0 & !0x2;
        }
    }

    /// Set bit 3.
    pub fn set_include_header(&mut self, v: bool)
        ensures
            final(self).0 == if v { old(self).0 | 0x8u8 } else { old(self).0 & !0x8u8 },
    {
        if v {
            self.0 = self.0 | 0x8;
        } else {
            self.0 = self.0 & !0x8;
        }
    }

    /// Set bit 4.
    pub fn set_include_crc(&mut self, v: bool)
        ensures
            final(self).0 == if v { old(self).0 | 0x10u8 } else { old(self).0 & !0x10u8 },
    {
        if v {
            self.0 = self.0 | 0x10;
        } else {
            self.0 = self.0 & !0x10;
        }
    }

    /// Set bit 5.
    pub fn set_append_rssi(&mut self, v: bool)
        ensures
            final(self).0 == if v { old(self).0 | 0x20u8 } else { old(self).0 & !0x20u8 },
    {
        if v {
            self.0 = self.0 | 0x20;
        } else {
            self.0 = self.0 & !0x20;
        }
    }

    /// Set bit 6.
    pub fn set_append_timestamp(&mut self, v: bool)
        ensures
            final(self).0 == if v { old(self).0 | 0x40u8 } else { old(self).0 & !0x40u8 },
    {
        if v {
            self.0 = self.0 | 0x40;
        } else {
            self.0 = self.0 & !0x40;
        }
    }

    /// Set bit 7.
    pub fn set_append_status(&mut self, v: bool)
        ensures
            final(self).0 == if v { old(self).0 | 0x80u8 } else { old(self).0 & !0x80u8 },
    {
        if v {
            self.0 = self.0 | 0x80;
        } else {
            self.0 = self.0 & !0x80;
        }
    }
}

/// Hardware bit layout `RfcHeaderConf`: the raw word with field setters
/// whose contracts state the exact bit arithmetic.
#[derive(Copy, Clone, Debug, PartialEq, Eq, Structural)]
pub struct RfcHeaderConf(pub u16);

impl RfcHeaderConf {
    /// Set bits 0 to 5.
    pub fn set_num_header_bits(&mut self, v: u16)
        ensures
            final(self).0 == (old(self).0 & !0x3fu16) | ((v & 0x3fu16) << 0u32),
    {
        self.0 = (self.0 & !0x3f) | ((v & 0x3f) << 0u32);
    }

    /// Set bits 6 to 10.
    pub fn set_len_pos(&mut self, v: u16)
        ensures
            final(self).0 == (old(self).0 & !0x7c0u16) | ((v & 0x1fu16) << 6u32),
    {
        self.0 = (self.0 & !0x7c0) | ((v & 0x1f) << 6u32);
    }

    /// Set bits 11 to 15.
    pub fn set_num_len_bits(&mut self, v: u16)
        ensures
            final(self).0 == (old(self).0 & !0xf800u16) | ((v & 0x1fu16) << 11u32),
    {
        self.0 = (self.0 & !0xf800) | ((v & 0x1f) << 11u32);
    }
}

/// Hardware bit layout `RfcAddressConf`: the raw word with field setters
/// whose contracts state the exact bit arithmetic.
#[derive(Copy, Clone, Debug, PartialEq, Eq, Structural)]
pub struct RfcAddressConf(pub u16);

impl RfcAddressConf {
    /// Set bit 0.
    pub fn set_addr_type(&mut self, v: bool)
        ensures
            final(self).0 == if v { old(self).0 | 0x1u16 } else { old(self).0 & !0x1u16 },
    {
        if v {
            self.0 = self.0 | 0x1;
        } else {
            self.0 = self.0 & !0x1;
        }
    }

    /// Set bits 1 to 5.
    pub fn set_addr_size(&mut self, v: u16)
        ensures
            final(self).0 == (old(self).0 & !0x3eu16) | ((v & 0x1fu16) << 1u32),
    {
        self.0 = (self.0 & !0x3e) | ((v & 0x1f) << 1u32);
    }

    /// Set bits 6 to 10.
    pub fn set_addr_pos(&mut self, v: u16)
        ensures
            final(self).0 == (old(self).0 & !0x7c0u16) | ((v & 0x1fu16) << 6u32),
    {
        self.0 = (self.0 & !0x7c0) | ((v & 0x1f) << 6u32);
    }

    /// Set bits 11 to 15.
    pub fn set_num_addr(&mut self, v: u16)
        ensures
            final(self).0 == (old(self).0 & !0xf800u16) | ((v & 0x1fu16) << 11u32),
    {
        self.0 = (self.0 & !0xf800) | ((v & 0x1f) << 11u32);
    }
}

/// Hardware bit layout `RfcTxTestConf`: the raw word with field setters
/// whose contracts state the exact bit arithmetic.
#[derive(Copy, Clone, Debug, PartialEq, Eq, Structural)]
pub struct RfcTxTestConf(pub u8);

impl RfcTxTestConf {
    /// Set bit 0.
    pub fn set_use_cw(&mut self, v: bool)
        ensures
            final(self).0 == if v { old(self).0 | 0x1u8 } else { old(self).0 & !0x1u8 },
    {
        if v {
            self.0 = self.0 | 0x1;
        } else {
            self.0 = self.0 & !0x1;
        }
    }

    /// Set bit 1.
    pub fn set_fs_off(&mut self, v: bool)
        ensures
            final(self).0 == if v { old(self).0 | 0x2u8 } else { old(self).0 & !0x2u8 },
    {
        if v {
            self.0 = self.0 | 0x2;
        } else {
            self.0 = self.0 & !0x2;
        }
    }

    /// Set bits 2 to 3.
    pub fn set_whiten_mode(&mut self, v: u8)
        ensures
            final(self).0 == (old(self).0 & !0xcu8) | ((v & 0x3u8) << 2u32),
    {
        self.0 = (self.0 & !0xc) | ((v & 0x3) << 2u32);
    }
}

/// Proprietary-mode divided radio setup, with separate standard and
/// 20-dBm transmit override tables.
#[allow(non_camel_case_types)]
#[derive(Copy, Clone, Debug, PartialEq, Eq, Structural)]
pub struct CommandRadioDivSetup_P {
    pub command_no: u16,
    pub status: u16,
    pub p_nextop: u32,
    pub start_time: u32,
    pub start_trigger: u8,
    pub condition: RfcCondition,
    pub modulation: RfcModulation,
    pub symbol_rate: RfcSymbolRate,
    pub rx_bandwidth: u8,
    pub preamble_conf: RfcPreambleConf,
    pub format_conf: RfcFormatConf,
    pub config: RfcSetupConfig,
    pub tx_power: u16,
    pub reg_overrides: u32,
    pub center_freq: u16,
    pub int_freq: u16,
    pub lo_divider: u8,
    pub reg_override_tx_std: u32,
    pub reg_override_tx_20: u32,
}

/// Proprietary-mode divided radio setup without the split transmit
/// override tables.
#[allow(non_camel_case_types)]
#[derive(Copy, Clone, Debug, PartialEq, Eq, Structural)]
pub struct CommandRadioDivSetup_R {
    pub command_no: u16,
    pub status: u16,
    pub p_nextop: u32,
    pub start_time: u32,
    pub start_trigger: u8,
    pub condition: RfcCondition,
    pub modulation: RfcModulation,
    pub symbol_rate: RfcSymbolRate,
    pub rx_bandwidth: u8,
    pub preamble_conf: RfcPreambleConf,
    pub format_conf: RfcFormatConf,
    pub config: RfcSetupConfig,
    pub tx_power: u16,
    pub reg_overrides: u32,
    pub center_freq: u16,
    pub int_freq: u16,
    pub lo_divider: u8,
}

/// Undivided radio setup.
#[derive(Copy, Clone, Debug, PartialEq, Eq, Structural)]
pub struct CommandRadioSetup {
    pub command_no: u16,
    pub status: u16,
    pub p_nextop: u32,
    pub start_time: u32,
    pub start_trigger: u8,
    pub condition: RfcCondition,
    pub modulation: RfcModulation,
    pub symbol_rate: RfcSymbolRate,
    pub rx_bandwidth: u8,
    pub preamble_conf: RfcPreambleConf,
    pub format_conf: RfcFormatConf,
    pub config: RfcSetupConfig,
    pub tx_power: u16,
    pub reg_overrides: u32,
}

/// Synchronise the radio timer with the real-time clock.
#[derive(Copy, Clone, Debug, PartialEq, Eq, Structural)]
pub struct CommandSyncRat {
    pub command_no: u16,
    pub status: u16,
    pub p_nextop: u32,
    pub start_time: u32,
    pub start_trigger: u8,
    pub condition: RfcCondition,
    pub _reserved: u16,
    pub rat0: u32,
}

/// Proprietary-mode transmit of one packet.
#[derive(Copy, Clone, Debug, PartialEq, Eq, Structural)]
pub struct CommandTx {
    pub command_no: u16,
    pub status: u16,
    pub p_nextop: u32,
    pub start_time: u32,
    pub start_trigger: RfcTrigger,
    pub condition: RfcCondition,
    pub packet_conf: RfcPacketConfTx,
    pub packet_len: u8,
    pub sync_word: u32,
    pub packet_pointer: u32,
}

/// Frequency-synthesizer programming.
#[derive(Copy, Clone, Debug, PartialEq, Eq, Structural)]
pub struct CommandFS {
    pub command_no: u16,
    pub status: u16,
    pub p_nextop: u32,
    pub start_time: u32,
    pub start_trigger: u8,
    pub condition: RfcCondition,
    pub frequency: u16,
    pub fract_freq: u16,
    pub synth_conf: RfcSynthConf,
    pub dummy0: u8,
    pub dummy1: u8,
    pub dummy2: u8,
    pub dummy3: u16,
}

/// Frequency-synthesizer power-down.
#[derive(Copy, Clone, Debug, PartialEq, Eq, Structural)]
pub struct CommandFSPowerdown {
    pub command_no: u16,
    pub status: u16,
    pub p_nextop: u32,
    pub start_time: u32,
    pub start_trigger: u8,
    pub condition: RfcCondition,
}

/// Proprietary-mode receive into a data-entry queue.
#[derive(Copy, Clone, Debug, PartialEq, Eq, Structural)]
pub struct CommandRx {
    pub command_no: u16,
    pub status: u16,
    pub p_nextop: u32,
    pub start_time: u32,
    pub start_trigger: u8,
    pub condition: RfcCondition,
    pub packet_conf: RfcPacketConfRx,
    pub rx_config: RxConfiguration,
    pub sync_word: u32,
    pub max_packet_len: u8,
    pub address_0: u8,
    pub address_1: u8,
    pub end_trigger: u8,
    pub end_time: u32,
    pub p_queue: u32,
    pub p_output: u32,
}

/// Advanced proprietary-mode receive with header and address filtering.
#[derive(Copy, Clone, Debug, PartialEq, Eq, Structural)]
pub struct CommandRxAdv {
    pub command_no: u16,
    pub status: u16,
    pub p_nextop: u32,
    pub start_time: u32,
    pub start_trigger: u8,
    pub condition: RfcCondition,
    pub packet_conf: RfcPacketConfRx,
    pub rx_config: RxConfiguration,
    pub sync_word_0: u32,
    pub sync_word_1: u32,
    pub max_packet_len: u16,
    pub header_conf: RfcHeaderConf,
    pub address: RfcAddressConf,
    pub len_offset: u8,
    pub end_trigger: u8,
    pub end_time: u32,
    pub p_addr: u32,
    pub p_queue: u32,
    pub p_output: u32,
}

/// Transmitter test pattern (continuous wave or modulated word).
#[derive(Copy, Clone, Debug, PartialEq, Eq, Structural)]
pub struct CommandTxTest {
    pub command_no: u16,
    pub status: u16,
    pub p_nextop: u32,
    pub start_time: u32,
    pub start_trigger: u8,
    pub condition: RfcCondition,
    pub config: RfcTxTestConf,
    pub _reserved0: u8,
    pub tx_word: u16,
    pub _reserved1: u8,
    pub end_trigger: RfcTrigger,
    pub sync_word: u32,
    pub end_time: u32,
}

impl RadioCommand for CommandRadioDivSetup_P {
    open spec fn spec_command_no(&self) -> u16 {
        self.command_no
    }

    fn get_command_no(&self) -> (r: u16) {
        self.command_no
    }
}

impl RadioCommand for CommandRadioDivSetup_R {
    open spec fn spec_command_no(&self) -> u16 {
        self.command_no
    }

    fn get_command_no(&self) -> (r: u16) {
        self.command_no
    }
}

impl RadioCommand for CommandRadioSetup {
    open spec fn spec_command_no(&self) -> u16 {
        self.command_no
    }

    fn get_command_no(&self) -> (r: u16) {
        self.command_no
    }
}

impl RadioCommand for CommandSyncRat {
    open spec fn spec_command_no(&self) -> u16 {
        self.command_no
    }

    fn get_command_no(&self) -> (r: u16) {
        self.command_no
    }
}

impl RadioCommand for CommandTx {
    open spec fn spec_command_no(&self) -> u16 {
        self.command_no
    }

    fn get_command_no(&self) -> (r: u16) {
        self.command_no
    }
}

impl RadioCommand for CommandFS {
    open spec fn spec_command_no(&self) -> u16 {
        self.command_no
    }

    fn get_command_no(&self) -> (r: u16) {
        self.command_no
    }
}

impl RadioCommand for CommandFSPowerdown {
    open spec fn spec_command_no(&self) -> u16 {
        self.command_no
    }

    fn get_command_no(&self) -> (r: u16) {
        self.command_no
    }
}

impl RadioCommand for CommandRx {
    open spec fn spec_command_no(&self) -> u16 {
        self.command_no
    }

    fn get_command_no(&self) -> (r: u16) {
        self.command_no
    }
}

impl RadioCommand for CommandRxAdv {
    open spec fn spec_command_no(&self) -> u16 {
        self.command_no
    }

    fn get_command_no(&self) -> (r: u16) {
        self.command_no
    }
}

impl RadioCommand for CommandTxTest {
    open spec fn spec_command_no(&self) -> u16 {
        self.command_no
    }

    fn get_command_no(&self) -> (r: u16) {
        self.command_no
    }
}

/// Build a register override table from `words` with the sentinel
/// appended, so every table handed to the radio is terminated.
fn terminated_table(words: Vec<u32>) -> (r: Vec<u32>)
    ensures
        r@ == words@.push(OVERRIDE_SENTINEL),
{
    let mut r = words;
    r.push(OVERRIDE_SENTINEL);
    r
}

/// Long-range mode register overrides, as a specification value.
pub open spec fn spec_lr_rfparams() -> Seq<u32> {
    seq![0x030c5068u32, 0x50884446u32, 0x0017609cu32, 0x000288A3u32, 0x7ddf0002u32, OVERRIDE_SENTINEL]
}

/// Continuous-wave mode register overrides, as a specification value.
pub open spec fn spec_cwm_rfparams() -> Seq<u32> {
    seq![0x50884446u32, 0x000288A3u32, 0x001a609cu32, 0x7ddf0002u32, OVERRIDE_SENTINEL]
}

/// Standard-amplifier transmit overrides for 10 dBm, as a specification
/// value.
pub open spec fn spec_tx_std_params_10() -> Seq<u32> {
    seq![0x0141362bu32, 0x11310703u32, 0x001a6028u32, OVERRIDE_SENTINEL]
}

/// Standard-amplifier transmit overrides for 9 dBm, as a specification
/// value.
pub open spec fn spec_tx_std_params_9() -> Seq<u32> {
    seq![0x00c9222bu32, 0x11310703u32, 0x001a6028u32, OVERRIDE_SENTINEL]
}

/// Standard-amplifier transmit overrides for 2 dBm, as a specification
/// value.
pub open spec fn spec_tx_std_params_2() -> Seq<u32> {
    seq![0x004f262bu32, 0x11310703u32, 0x001a6028u32, OVERRIDE_SENTINEL]
}

/// 20-dBm-amplifier transmit overrides, as a specification value.
pub open spec fn spec_tx_20_params() -> Seq<u32> {
    seq![0x82a86c2bu32, 0x11310703u32, 0x001f6028u32, OVERRIDE_SENTINEL]
}

/// Long-range mode register overrides.
pub fn lr_rfparams() -> (r: Vec<u32>)
    ensures
        r@ == spec_lr_rfparams(),
{
    let mut words: Vec<u32> = Vec::new();
    words.push(0x030c5068);
    words.push(0x50884446);
    words.push(0x0017609c);
    words.push(0x000288A3);
    words.push(0x7ddf0002);
    let r = terminated_table(words);
    proof {
        assert(r@ =~= spec_lr_rfparams());
    }
    r
}

/// Continuous-wave mode register overrides.
pub fn cwm_rfparams() -> (r: Vec<u32>)
    ensures
        r@ == spec_cwm_rfparams(),
{
    let mut words: Vec<u32> = Vec::new();
    words.push(0x50884446);
    words.push(0x000288A3);
    words.push(0x001a609c);
    words.push(0x7ddf0002);
    let r = terminated_table(words);
    proof {
        assert(r@ =~= spec_cwm_rfparams());
    }
    r
}

/// Standard-amplifier transmit overrides for 10 dBm output.
pub fn tx_std_params_10() -> (r: Vec<u32>)
    ensures
        r@ == spec_tx_std_params_10(),
{
    let mut words: Vec<u32> = Vec::new();
    words.push(0x0141362b);
    words.push(0x11310703);
    words.push(0x001a6028);
    let r = terminated_table(words);
    proof {
        assert(r@ =~= spec_tx_std_params_10());
    }
    r
}

/// Standard-amplifier transmit overrides for 9 dBm output.
pub fn tx_std_params_9() -> (r: Vec<u32>)
    ensures
        r@ == spec_tx_std_params_9(),
{
    let mut words: Vec<u32> = Vec::new();
    words.push(0x00c9222b);
    words.push(0x11310703);
    words.push(0x001a6028);
    let r = terminated_table(words);
    proof {
        assert(r@ =~= spec_tx_std_params_9());
    }
    r
}

/// Standard-amplifier transmit overrides for 2 dBm output.
pub fn tx_std_params_2() -> (r: Vec<u32>)
    ensures
        r@ == spec_tx_std_params_2(),
{
    let mut words: Vec<u32> = Vec::new();
    words.push(0x004f262b);
    words.push(0x11310703);
    words.push(0x001a6028);
    let r = terminated_table(words);
    proof {
        assert(r@ =~= spec_tx_std_params_2());
    }
    r
}

/// 20-dBm-amplifier transmit overrides.
pub fn tx_20_params() -> (r: Vec<u32>)
    ensures
        r@ == spec_tx_20_params(),
{
    let mut words: Vec<u32> = Vec::new();
    words.push(0x82a86c2b);
    words.push(0x11310703);
    words.push(0x001f6028);
    let r = terminated_table(words);
    proof {
        assert(r@ =~= spec_tx_20_params());
    }
    r
}

/// The override table contains the sentinel somewhere.
pub open spec fn table_terminated(t: Seq<u32>) -> bool {
    exists|i: int| 0 <= i < t.len() && t[i] == OVERRIDE_SENTINEL
}

/// Collect the words of an override table that a consumer applies:
/// exactly the prefix up to and including the first sentinel word.
/// Nothing past the first sentinel is touched or returned.
#[verifier::loop_isolation(false)]
pub fn collect_overrides(table: &Vec<u32>) -> (r: Vec<u32>)
    requires
        table_terminated(table@),
    ensures
        1 <= r@.len() <= table@.len(),
        r@ == table@.subrange(0, r@.len() as int),
        r@[r@.len() - 1] == OVERRIDE_SENTINEL,
        forall|j: int| 0 <= j < r@.len() - 1 ==> r@[j] != OVERRIDE_SENTINEL,
{
    let mut r: Vec<u32> = Vec::new();
    let n = table.len();
    let mut i: usize = 0;
    while i < n
        invariant
            i <= n,
            r@ == table@.subrange(0, i as int),
            forall|j: int| 0 <= j < i ==> table@[j] != OVERRIDE_SENTINEL,
        decreases n - i,
    {
        let word = table[i];
        r.push(word);
        proof {
            assert(r@ =~= table@.subrange(0, i + 1));
        }
        if word == 0xFFFFFFFF {
            return r;
        }
        i = i + 1;
    }
    proof {
        assert(false);
    }
    r
}


/// A collected override prefix that ends at the table's only sentinel
/// is the whole table.
pub proof fn lemma_collect_whole_table(t: Seq<u32>, r: Seq<u32>)
    requires
        r == t.subrange(0, r.len() as int),
        1 <= r.len() <= t.len(),
        r[r.len() - 1] == OVERRIDE_SENTINEL,
        t.len() >= 1,
        t[t.len() - 1] == OVERRIDE_SENTINEL,
        forall|j: int| 0 <= j < t.len() - 1 ==> t[j] != OVERRIDE_SENTINEL,
    ensures
        r == t,
{
    assert(t[r.len() - 1] == OVERRIDE_SENTINEL);
    assert(r.len() == t.len());
    assert(r =~= t);
}

impl CommandTx {
    /// Serialize the record into the word-aligned command buffer layout
    /// the radio DMA reads: six words, fields packed little-endian in
    /// declaration order with no implicit padding.
    pub fn to_words(&self) -> (r: Vec<u32>)
        ensures
            r@.len() == 6,
            r@[0] == self.command_no + self.status * 0x10000,
            r@[1] == self.p_nextop,
            r@[2] == self.start_time,
            r@[3] == self.start_trigger.0 + self.condition.0 * 0x100 + self.packet_conf.0
                * 0x10000 + self.packet_len * 0x1000000,
            r@[4] == self.sync_word,
            r@[5] == self.packet_pointer,
    {
        let mut r: Vec<u32> = Vec::new();
        r.push(self.command_no as u32 + self.status as u32 * 0x10000);
        r.push(self.p_nextop);
        r.push(self.start_time);
        r.push(
            self.start_trigger.0 as u32 + self.condition.0 as u32 * 0x100 + self.packet_conf.0
                as u32 * 0x10000 + self.packet_len as u32 * 0x1000000,
        );
        r.push(self.sync_word);
        r.push(self.packet_pointer);
        r
    }
}

impl CommandFS {
    /// Serialize the record into the word-aligned command buffer layout:
    /// six words, fields packed little-endian in declaration order with
    /// no implicit padding.
    pub fn to_words(&self) -> (r: Vec<u32>)
        ensures
            r@.len() == 6,
            r@[0] == self.command_no + self.status * 0x10000,
            r@[1] == self.p_nextop,
            r@[2] == self.start_time,
            r@[3] == self.start_trigger + self.condition.0 * 0x100 + self.frequency * 0x10000,
            r@[4] == self.fract_freq + self.synth_conf.0 * 0x10000 + self.dummy0 * 0x1000000,
            r@[5] == self.dummy1 + self.dummy2 * 0x100 + self.dummy3 * 0x10000,
    {
        let mut r: Vec<u32> = Vec::new();
        r.push(self.command_no as u32 + self.status as u32 * 0x10000);
        r.push(self.p_nextop);
        r.push(self.start_time);
        r.push(
            self.start_trigger as u32 + self.condition.0 as u32 * 0x100 + self.frequency as u32
                * 0x10000,
        );
        r.push(
            self.fract_freq as u32 + self.synth_conf.0 as u32 * 0x10000 + self.dummy0 as u32
                * 0x1000000,
        );
        r.push(self.dummy1 as u32 + self.dummy2 as u32 * 0x100 + self.dummy3 as u32 * 0x10000);
        r
    }
}

} // verus!
