//! Multimode radio state machine: owns power-up and power-down
//! sequencing, the transmit and receive buffer lifecycle, and the
//! construction of the command records submitted through the command
//! processor.
//!
//! Oscillator switching, patch loading and the doorbell writes are the
//! surrounding runtime's work; the state machine fixes their order and
//! builds every record with its exact field values.

use crate::hil::rfcore::PaType;
use crate::radio::commands::{
    CommandFS, CommandRadioDivSetup_P, CommandRx, CommandTx, CommandTxTest, DirectCommand,
    RfcCondition, RfcFormatConf, RfcModulation, RfcPacketConfRx, RfcPacketConfTx, RfcPreambleConf,
    RfcSetupConfig, RfcSymbolRate, RfcSynthConf, RfcTrigger, RfcTxTestConf, RxConfiguration,
};
use crate::radio::rfc::{cmdr_result, RFCore, RfcMode};
use crate::returncode::ReturnCode;
use vstd::prelude::*;

verus! {

/// Hardware ceiling on the payload of one transmitted packet, in bytes.
pub const MAX_TX_LENGTH: usize = 240;

/// Size of the word-aligned transmit staging buffer.
pub const TX_STAGING_LEN: usize = 256;

/// Largest payload of one received frame.
pub const MAX_RX_LENGTH: u16 = 255;

/// Word-aligned staging storage for the outgoing packet copy; the radio
/// DMA reads from here, never from the caller's buffer.
#[allow(non_camel_case_types)]
pub struct _32BitAlignedU8Array {
    pub buf: Vec<u8>,
}

impl _32BitAlignedU8Array {
    /// A zeroed staging buffer.
    pub fn new() -> (r: _32BitAlignedU8Array)
        ensures
            r.buf@.len() == TX_STAGING_LEN,
            forall|i: int| 0 <= i < TX_STAGING_LEN ==> r.buf@[i] == 0u8,
    {
        let mut buf: Vec<u8> = Vec::new();
        let mut i: usize = 0;
        while i < TX_STAGING_LEN
            invariant
                i <= TX_STAGING_LEN,
                buf@.len() == i,
                forall|k: int| 0 <= k < i ==> buf@[k] == 0u8,
            decreases TX_STAGING_LEN - i,
        {
            buf.push(0u8);
            i = i + 1;
        }
        _32BitAlignedU8Array { buf }
    }
}

/// The steps of the power-up protocol, in their mandatory order.
#[derive(Copy, Clone, Debug, PartialEq, Eq, Structural)]
pub enum PowerStep {
    /// Request the switch to the external crystal oscillator.
    RequestXosc,
    /// Enable the radio core's power domain.
    EnableCore,
    /// Start the radio's internal timer.
    StartRat,
    /// Confirm and complete the oscillator switch.
    ConfirmXosc,
    /// Load the mode-specific firmware patches.
    ApplyPatches,
    /// Issue the radio setup command with the override tables.
    Setup,
    /// Park the synthesizer on a known channel.
    FrequencySelect,
}

/// The transmit command record for a staged packet of `len` bytes:
/// past-trigger start, run-once condition, variable length with a frame
/// check appended. The packet pointer is filled in by the runtime that
/// knows the staging buffer's bus address.
pub open spec fn spec_tx_command(len: u8) -> CommandTx {
    CommandTx {
        command_no: 0x3801,
        status: 0,
        p_nextop: 0,
        start_time: 0,
        start_trigger: RfcTrigger(0x80),
        condition: RfcCondition(0x01),
        packet_conf: RfcPacketConfTx(0x18),
        packet_len: len,
        sync_word: 0x00000000,
        packet_pointer: 0,
    }
}

/// The frequency-select record parking the synthesizer on `frequency`
/// with fractional part `fract_freq`.
pub open spec fn spec_fs_command(frequency: u16, fract_freq: u16) -> CommandFS {
    CommandFS {
        command_no: 0x0803,
        status: 0,
        p_nextop: 0,
        start_time: 0,
        start_trigger: 0,
        condition: RfcCondition(0x01),
        frequency,
        fract_freq,
        synth_conf: RfcSynthConf(0x00),
        dummy0: 0x00,
        dummy1: 0x00,
        dummy2: 0x00,
        dummy3: 0x0000,
    }
}

/// The power-up protocol, in its mandatory order.
pub open spec fn spec_power_up_steps() -> Seq<PowerStep> {
    seq![
        PowerStep::RequestXosc,
        PowerStep::EnableCore,
        PowerStep::StartRat,
        PowerStep::ConfirmXosc,
        PowerStep::ApplyPatches,
        PowerStep::Setup,
        PowerStep::FrequencySelect,
    ]
}

/// The receive record arming the circular data queue: run-once
/// condition, variable length with a frame check, errored and ignored
/// frames flushed automatically, the status byte appended to each
/// accepted frame. Queue and output addresses are plain words the
/// runtime fills in.
pub open spec fn spec_rx_command() -> CommandRx {
    CommandRx {
        command_no: 0x3802,
        status: 0,
        p_nextop: 0,
        start_time: 0,
        start_trigger: 0,
        condition: RfcCondition(0x01),
        packet_conf: RfcPacketConfRx(0x18),
        rx_config: RxConfiguration(0x8B),
        sync_word: 0x00000000,
        max_packet_len: 0xFF,
        address_0: 0xAA,
        address_1: 0xBB,
        end_trigger: 0x1,
        end_time: 0,
        p_queue: 0,
        p_output: 0,
    }
}

/// The continuous-wave-mode divided setup record for the given override
/// table addresses and transmit power.
pub open spec fn spec_div_setup_command(
    tx_power: u16,
    reg_overrides: u32,
    tx_std_overrides: u32,
    tx_20_overrides: u32,
) -> CommandRadioDivSetup_P {
    CommandRadioDivSetup_P {
        command_no: 0x3807,
        status: 0,
        p_nextop: 0,
        start_time: 0,
        start_trigger: 0,
        condition: RfcCondition(0x01),
        modulation: RfcModulation(0x0321),
        symbol_rate: RfcSymbolRate(0x0080000F),
        rx_bandwidth: 0x52,
        preamble_conf: RfcPreambleConf(0x04),
        format_conf: RfcFormatConf(0x00A0),
        config: RfcSetupConfig(0x0008),
        tx_power,
        reg_overrides,
        center_freq: 0x0395,
        int_freq: 0x8000,
        lo_divider: 0x05,
        reg_override_tx_std: tx_std_overrides,
        reg_override_tx_20: tx_20_overrides,
    }
}

/// Multimode radio: the owned command processor, the buffer lifecycle
/// of the single outstanding transmit, the staging copy the DMA reads,
/// and the records most recently built for submission.
pub struct Radio {
    /// The command processor this radio drives.
    pub rfc: RFCore,
    /// Whether a power-down should follow the next command completion.
    pub schedule_powerdown: bool,
    /// Whether the chip may enter its deepest sleep mode.
    pub can_sleep: bool,
    /// The caller's buffer retained while its packet is in flight.
    pub tx_buf: Option<Vec<u8>>,
    /// Word-aligned staging copy of the outgoing packet.
    pub tx_staging: _32BitAlignedU8Array,
    /// Transmit power code used by setup and power commands.
    pub tx_power: u16,
    /// Which power amplifier the board routes the radio through.
    pub pa_type: PaType,
    /// The transmit record built for the packet in flight, if any.
    pub tx_cmd: Option<CommandTx>,
    /// The receive record most recently armed, if any.
    pub rx_cmd: Option<CommandRx>,
    /// The frequency-select record most recently submitted, if any.
    pub fs_cmd: Option<CommandFS>,
    /// The setup record most recently submitted, if any.
    pub setup_cmd: Option<CommandRadioDivSetup_P>,
    /// Power-mode notifications delivered to the power client, oldest
    /// first; `true` reports powered up.
    pub power_events: Vec<bool>,
    /// The override words most recently applied by setup, per table.
    pub applied_overrides: Option<(Vec<u32>, Vec<u32>, Vec<u32>)>,
}

impl Radio {
    /// The staging buffer keeps its fixed size.
    pub open spec fn wf(self) -> bool {
        self.tx_staging.buf@.len() == TX_STAGING_LEN
    }

    /// A powered-down radio with default transmit power and no buffer
    /// in flight.
    pub fn new(rfc: RFCore) -> (r: Radio)
        ensures
            r.rfc == rfc,
            !r.schedule_powerdown,
            !r.can_sleep,
            r.tx_buf is None,
            r.tx_power == 0x38DA,
            r.pa_type == PaType::NONE,
            r.tx_cmd is None,
            r.rx_cmd is None,
            r.fs_cmd is None,
            r.setup_cmd is None,
            r.power_events@ == Seq::<bool>::empty(),
            r.applied_overrides is None,
            r.wf(),
    {
        Radio {
            rfc,
            schedule_powerdown: false,
            can_sleep: false,
            tx_buf: None,
            tx_staging: _32BitAlignedU8Array::new(),
            tx_power: 0x38DA,
            pa_type: PaType::NONE,
            tx_cmd: None,
            rx_cmd: None,
            fs_cmd: None,
            setup_cmd: None,
            power_events: Vec::new(),
            applied_overrides: None,
        }
    }

    /// Power the radio up: select the firmware mode, enable the core and
    /// its timer, notify the power client, and hand the runtime the
    /// remaining protocol steps in their mandatory order. Each step's
    /// failure must abort the steps after it; recovery is an explicit
    /// `reset` by the caller.
    pub fn power_up(&mut self) -> (steps: Vec<PowerStep>)
        ensures
            steps@ == spec_power_up_steps(),
            final(self).rfc.mode == Some(RfcMode::BLE),
            final(self).rfc.enabled,
            final(self).rfc.rat_running,
            final(self).power_events@ == old(self).power_events@.push(true),
            final(self).tx_buf == old(self).tx_buf,
            final(self).tx_staging == old(self).tx_staging,
            final(self).tx_power == old(self).tx_power,
            final(self).pa_type == old(self).pa_type,
            final(self).schedule_powerdown == old(self).schedule_powerdown,
            final(self).can_sleep == old(self).can_sleep,
            final(self).tx_cmd == old(self).tx_cmd,
            final(self).rx_cmd == old(self).rx_cmd,
            final(self).fs_cmd == old(self).fs_cmd,
            final(self).setup_cmd == old(self).setup_cmd,
            final(self).applied_overrides == old(self).applied_overrides,
            final(self).wf() == old(self).wf(),
    {
        self.rfc.set_mode(RfcMode::BLE);
        self.rfc.enable();
        self.rfc.start_rat();
        self.power_events.push(true);
        let mut steps: Vec<PowerStep> = Vec::new();
        steps.push(PowerStep::RequestXosc);
        steps.push(PowerStep::EnableCore);
        steps.push(PowerStep::StartRat);
        steps.push(PowerStep::ConfirmXosc);
        steps.push(PowerStep::ApplyPatches);
        steps.push(PowerStep::Setup);
        steps.push(PowerStep::FrequencySelect);
        proof {
            assert(steps@ =~= spec_power_up_steps());
        }
        steps
    }

    /// Power the radio down: the core is disabled, any in-flight command
    /// abandoned, and the power client notified of the change. No held
    /// buffer is dropped.
    pub fn power_down(&mut self)
        ensures
            !final(self).rfc.enabled,
            !final(self).rfc.rat_running,
            final(self).rfc.pending_op is None,
            final(self).rfc.mode == old(self).rfc.mode,
            final(self).rfc.status == old(self).rfc.status,
            final(self).power_events@ == old(self).power_events@.push(false),
            final(self).tx_buf == old(self).tx_buf,
            final(self).tx_staging == old(self).tx_staging,
            final(self).tx_power == old(self).tx_power,
            final(self).pa_type == old(self).pa_type,
            final(self).schedule_powerdown == old(self).schedule_powerdown,
            final(self).can_sleep == old(self).can_sleep,
            final(self).tx_cmd == old(self).tx_cmd,
            final(self).rx_cmd == old(self).rx_cmd,
            final(self).fs_cmd == old(self).fs_cmd,
            final(self).setup_cmd == old(self).setup_cmd,
            final(self).applied_overrides == old(self).applied_overrides,
            final(self).wf() == old(self).wf(),
    {
        self.rfc.disable();
        self.power_events.push(false);
    }

    /// Stage a packet and build its transmit record: the payload is
    /// copied to the front of the staging buffer (the rest zeroed), the
    /// caller's buffer is retained for return on completion, and the
    /// record carries the payload length.
    pub fn replace_and_send_tx_buffer(&mut self, buf: Vec<u8>, len: usize) -> (cmd: CommandTx)
        requires
            old(self).wf(),
            len <= MAX_TX_LENGTH,
            len <= buf@.len(),
            old(self).tx_buf is None,
        ensures
            final(self).wf(),
            cmd == spec_tx_command(len as u8),
            final(self).tx_cmd == Some(cmd),
            final(self).tx_buf == Some(buf),
            final(self).tx_staging.buf@.len() == TX_STAGING_LEN,
            forall|i: int| 0 <= i < len ==> final(self).tx_staging.buf@[i] == buf@[i],
            forall|i: int|
                len <= i < TX_STAGING_LEN ==> final(self).tx_staging.buf@[i] == 0u8,
            final(self).rfc == old(self).rfc,
            final(self).tx_power == old(self).tx_power,
            final(self).pa_type == old(self).pa_type,
            final(self).schedule_powerdown == old(self).schedule_powerdown,
            final(self).can_sleep == old(self).can_sleep,
            final(self).rx_cmd == old(self).rx_cmd,
            final(self).fs_cmd == old(self).fs_cmd,
            final(self).setup_cmd == old(self).setup_cmd,
            final(self).power_events == old(self).power_events,
            final(self).applied_overrides == old(self).applied_overrides,
    {
        let mut i: usize = 0;
        while i < TX_STAGING_LEN
            invariant
                old(self).wf(),
                i <= TX_STAGING_LEN,
                self.tx_staging.buf@.len() == TX_STAGING_LEN,
                forall|k: int| 0 <= k < i ==> self.tx_staging.buf@[k] == 0u8,
                self.tx_buf == old(self).tx_buf,
                self.rfc == old(self).rfc,
                self.tx_power == old(self).tx_power,
                self.pa_type == old(self).pa_type,
                self.schedule_powerdown == old(self).schedule_powerdown,
                self.can_sleep == old(self).can_sleep,
                self.rx_cmd == old(self).rx_cmd,
                self.fs_cmd == old(self).fs_cmd,
                self.tx_cmd == old(self).tx_cmd,
                self.setup_cmd == old(self).setup_cmd,
                self.power_events == old(self).power_events,
                self.applied_overrides == old(self).applied_overrides,
            decreases TX_STAGING_LEN - i,
        {
            self.tx_staging.buf.set(i, 0);
            i = i + 1;
        }
        let mut j: usize = 0;
        while j < len
            invariant
                old(self).wf(),
                j <= len,
                len <= buf@.len(),
                len <= TX_STAGING_LEN,
                self.tx_staging.buf@.len() == TX_STAGING_LEN,
                forall|k: int| 0 <= k < j ==> self.tx_staging.buf@[k] == buf@[k],
                forall|k: int| j <= k < TX_STAGING_LEN ==> self.tx_staging.buf@[k] == 0u8,
                self.tx_buf == old(self).tx_buf,
                self.rfc == old(self).rfc,
                self.tx_power == old(self).tx_power,
                self.pa_type == old(self).pa_type,
                self.schedule_powerdown == old(self).schedule_powerdown,
                self.can_sleep == old(self).can_sleep,
                self.rx_cmd == old(self).rx_cmd,
                self.fs_cmd == old(self).fs_cmd,
                self.tx_cmd == old(self).tx_cmd,
                self.setup_cmd == old(self).setup_cmd,
                self.power_events == old(self).power_events,
                self.applied_overrides == old(self).applied_overrides,
            decreases len - j,
        {
            let byte = buf[j];
            self.tx_staging.buf.set(j, byte);
            j = j + 1;
        }
        self.tx_buf = Some(buf);
        let mut trig = RfcTrigger(0);
        trig.set_trigger_type(0);
        trig.set_enable_cmd(false);
        trig.set_trigger_no(0);
        trig.set_past_trigger(true);
        let mut cond = RfcCondition(0);
        cond.set_rule(0x01);
        let mut packet = RfcPacketConfTx(0);
        packet.set_fs_off(false);
        packet.set_use_crc(true);
        packet.set_var_len(true);
        let cmd = CommandTx {
            command_no: 0x3801,
            status: 0,
            p_nextop: 0,
            start_time: 0,
            start_trigger: trig,
            condition: cond,
            packet_conf: packet,
            packet_len: len as u8,
            sync_word: 0x00000000,
            packet_pointer: 0,
        };
        self.tx_cmd = Some(cmd);
        proof {
            let ghost trig_bits = trig.0;
            assert(trig_bits == 0x80u8) by (bit_vector)
                requires
                    trig_bits == ((((((0u8 & !0xfu8) | ((0x0u8 & 0xfu8) << 0u32)) & !0x10u8) & !0x60u8) | ((0x0u8 & 0x3u8) << 5u32)) | 0x80u8),
            ;
            let ghost cond_bits = cond.0;
            assert(cond_bits == 0x01u8) by (bit_vector)
                requires
                    cond_bits == ((0u8 & !0xfu8) | ((0x1u8 & 0xfu8) << 0u32)),
            ;
            let ghost packet_bits = packet.0;
            assert(packet_bits == 0x18u8) by (bit_vector)
                requires
                    packet_bits == (((0u8 & !0x1u8) | 0x8u8) | 0x10u8),
            ;
        }
        cmd
    }

    /// Accept ownership of a caller's buffer for transmission. A frame
    /// longer than the hardware ceiling is rejected with a size error, a
    /// second transmit while one is in flight with a busy error; in both
    /// cases the buffer comes straight back and nothing inside the radio
    /// changes. Otherwise the packet is staged and its record built.
    pub fn transmit(&mut self, buf: Vec<u8>, frame_len: usize) -> (r: (
        ReturnCode,
        Option<Vec<u8>>,
    ))
        requires
            old(self).wf(),
            frame_len <= buf@.len(),
        ensures
            final(self).wf(),
            frame_len > MAX_TX_LENGTH ==> r.0 == ReturnCode::ESIZE && r.1 == Some(buf) && *final(self) == *old(self),
            frame_len <= MAX_TX_LENGTH && old(self).tx_buf is Some ==> r.0 == ReturnCode::EBUSY
                && r.1 == Some(buf) && *final(self) == *old(self),
            frame_len <= MAX_TX_LENGTH && old(self).tx_buf is None ==> r.0 == ReturnCode::SUCCESS
                && r.1 is None && final(self).tx_buf == Some(buf) && final(self).tx_cmd == Some(
                spec_tx_command(frame_len as u8),
            ) && (forall|i: int| 0 <= i < frame_len ==> final(self).tx_staging.buf@[i] == buf@[i])
                && (forall|i: int|
                frame_len <= i < TX_STAGING_LEN ==> final(self).tx_staging.buf@[i] == 0u8),
    {
        if frame_len > MAX_TX_LENGTH {
            return (ReturnCode::ESIZE, Some(buf));
        }
        if self.tx_buf.is_none() {
            let _cmd = self.replace_and_send_tx_buffer(buf, frame_len);
            (ReturnCode::SUCCESS, None)
        } else {
            (ReturnCode::EBUSY, Some(buf))
        }
    }

    /// Arm the receiver: build the receive record against the circular
    /// data queue, flushing errored and ignored frames automatically and
    /// appending the status byte to each accepted frame.
    pub fn start_rx_cmd(&mut self) -> (r: ReturnCode)
        ensures
            r == ReturnCode::SUCCESS,
            final(self).rx_cmd == Some(spec_rx_command()),
            final(self).rfc == old(self).rfc,
            final(self).tx_buf == old(self).tx_buf,
            final(self).tx_staging == old(self).tx_staging,
            final(self).tx_power == old(self).tx_power,
            final(self).pa_type == old(self).pa_type,
            final(self).schedule_powerdown == old(self).schedule_powerdown,
            final(self).can_sleep == old(self).can_sleep,
            final(self).tx_cmd == old(self).tx_cmd,
            final(self).fs_cmd == old(self).fs_cmd,
            final(self).setup_cmd == old(self).setup_cmd,
            final(self).power_events == old(self).power_events,
            final(self).applied_overrides == old(self).applied_overrides,
            final(self).wf() == old(self).wf(),
    {
        let mut cond = RfcCondition(0);
        cond.set_rule(0x01);
        let mut packet = RfcPacketConfRx(0);
        packet.set_fs_off(false);
        packet.set_brepeat_ok(false);
        packet.set_brepeat_nok(false);
        packet.set_use_crc(true);
        packet.set_var_len(true);
        packet.set_check_address(false);
        packet.set_end_type(false);
        packet.set_filter_op(false);
        let mut config = RxConfiguration(0);
        config.set_auto_flush_ignored(true);
        config.set_auto_flush_crc_error(true);
        config.set_include_header(true);
        config.set_include_crc(false);
        config.set_append_rssi(false);
        config.set_append_timestamp(false);
        config.set_append_status(true);
        let cmd = CommandRx {
            command_no: 0x3802,
            status: 0,
            p_nextop: 0,
            start_time: 0,
            start_trigger: 0,
            condition: cond,
            packet_conf: packet,
            rx_config: config,
            sync_word: 0x00000000,
            max_packet_len: 0xFF,
            address_0: 0xAA,
            address_1: 0xBB,
            end_trigger: 0x1,
            end_time: 0,
            p_queue: 0,
            p_output: 0,
        };
        proof {
            let ghost cond_bits = cond.0;
            assert(cond_bits == 0x01u8) by (bit_vector)
                requires
                    cond_bits == ((0u8 & !0xfu8) | ((0x1u8 & 0xfu8) << 0u32)),
            ;
            let ghost packet_bits = packet.0;
            assert(packet_bits == 0x18u8) by (bit_vector)
                requires
                    packet_bits == ((((((((0u8 & !0x1u8) & !0x2u8) & !0x4u8) | 0x8u8) | 0x10u8) & !0x20u8) & !0x40u8) & !0x80u8),
            ;
            let ghost config_bits = config.0;
            assert(config_bits == 0x8Bu8) by (bit_vector)
                requires
                    config_bits == (((((((0u8 | 0x1u8) | 0x2u8) | 0x8u8) & !0x10u8) & !0x20u8) & !0x40u8) | 0x80u8),
            ;
        }
        self.rx_cmd = Some(cmd);
        ReturnCode::SUCCESS
    }

    /// Arm the receiver (driver-facing name).
    pub fn receive(&mut self) -> (r: ReturnCode)
        ensures
            r == ReturnCode::SUCCESS,
            final(self).rx_cmd == Some(spec_rx_command()),
            final(self).rfc == old(self).rfc,
            final(self).tx_buf == old(self).tx_buf,
            final(self).tx_staging == old(self).tx_staging,
            final(self).tx_cmd == old(self).tx_cmd,
            final(self).fs_cmd == old(self).fs_cmd,
            final(self).setup_cmd == old(self).setup_cmd,
            final(self).power_events == old(self).power_events,
            final(self).wf() == old(self).wf(),
    {
        self.start_rx_cmd()
    }

    /// Build the fixed frequency-select record parking the synthesizer
    /// on the calibration channel.
    pub fn set_radio_fs(&mut self)
        ensures
            final(self).fs_cmd == Some(spec_fs_command(0x038B, 0x0000)),
            final(self).rfc == old(self).rfc,
            final(self).tx_buf == old(self).tx_buf,
            final(self).tx_staging == old(self).tx_staging,
            final(self).tx_power == old(self).tx_power,
            final(self).pa_type == old(self).pa_type,
            final(self).tx_cmd == old(self).tx_cmd,
            final(self).rx_cmd == old(self).rx_cmd,
            final(self).setup_cmd == old(self).setup_cmd,
            final(self).power_events == old(self).power_events,
            final(self).applied_overrides == old(self).applied_overrides,
            final(self).wf() == old(self).wf(),
    {
        let mut cond = RfcCondition(0);
        cond.set_rule(0x01);
        let mut synth = RfcSynthConf(0);
        synth.set_tx_mode(false);
        synth.set_ref_freq(0x00);
        let cmd_fs = CommandFS {
            command_no: 0x0803,
            status: 0,
            p_nextop: 0,
            start_time: 0,
            start_trigger: 0,
            condition: cond,
            frequency: 0x038B,
            fract_freq: 0x0000,
            synth_conf: synth,
            dummy0: 0x00,
            dummy1: 0x00,
            dummy2: 0x00,
            dummy3: 0x0000,
        };
        proof {
            let ghost cond_bits = cond.0;
            assert(cond_bits == 0x01u8) by (bit_vector)
                requires
                    cond_bits == ((0u8 & !0xfu8) | ((0x1u8 & 0xfu8) << 0u32)),
            ;
            let ghost synth_bits = synth.0;
            assert(synth_bits == 0x00u8) by (bit_vector)
                requires
                    synth_bits == (((0u8 & !0x1u8) & !0x7eu8) | ((0x0u8 & 0x3fu8) << 1u32)),
            ;
        }
        self.fs_cmd = Some(cmd_fs);
    }

    /// Submit a frequency-select record for the given synthesizer
    /// programming; `cmdsta` is the acknowledgement word the doorbell
    /// reported. Success exactly when the submission was acknowledged.
    pub fn set_frequency(&mut self, frequency: u16, fract_freq: u16, cmdsta: u32) -> (r:
        ReturnCode)
        ensures
            final(self).fs_cmd == Some(spec_fs_command(frequency, fract_freq)),
            final(self).tx_buf == old(self).tx_buf,
            final(self).tx_staging == old(self).tx_staging,
            final(self).tx_cmd == old(self).tx_cmd,
            final(self).rx_cmd == old(self).rx_cmd,
            final(self).setup_cmd == old(self).setup_cmd,
            final(self).power_events == old(self).power_events,
            final(self).wf() == old(self).wf(),
            !old(self).rfc.enabled ==> r == ReturnCode::FAIL && final(self).rfc == old(self).rfc,
            old(self).rfc.enabled ==> (r == ReturnCode::SUCCESS <==> cmdr_result(cmdsta) is Ok),
            old(self).rfc.enabled && !(cmdr_result(cmdsta) is Ok) ==> r == ReturnCode::FAIL,
            old(self).rfc.enabled ==> final(self).rfc.status == cmdsta && final(self).rfc.enabled
                && final(self).rfc.mode == old(self).rfc.mode && final(self).rfc.rat_running
                == old(self).rfc.rat_running,
            old(self).rfc.enabled && cmdr_result(cmdsta) is Ok ==> final(self).rfc.pending_op
                == Some(0x0803u16),
            old(self).rfc.enabled && !(cmdr_result(cmdsta) is Ok) ==> final(self).rfc.pending_op
                == old(self).rfc.pending_op,
    {
        let mut cond = RfcCondition(0);
        cond.set_rule(0x01);
        let mut synth = RfcSynthConf(0);
        synth.set_tx_mode(false);
        synth.set_ref_freq(0x00);
        let cmd_fs = CommandFS {
            command_no: 0x0803,
            status: 0,
            p_nextop: 0,
            start_time: 0,
            start_trigger: 0,
            condition: cond,
            frequency,
            fract_freq,
            synth_conf: synth,
            dummy0: 0x00,
            dummy1: 0x00,
            dummy2: 0x00,
            dummy3: 0x0000,
        };
        proof {
            let ghost cond_bits = cond.0;
            assert(cond_bits == 0x01u8) by (bit_vector)
                requires
                    cond_bits == ((0u8 & !0xfu8) | ((0x1u8 & 0xfu8) << 0u32)),
            ;
            let ghost synth_bits = synth.0;
            assert(synth_bits == 0x00u8) by (bit_vector)
                requires
                    synth_bits == (((0u8 & !0x1u8) & !0x7eu8) | ((0x0u8 & 0x3fu8) << 1u32)),
            ;
        }
        self.fs_cmd = Some(cmd_fs);
        let accepted = self.rfc.send_async(&cmd_fs, cmdsta);
        if accepted.is_ok() {
            ReturnCode::SUCCESS
        } else {
            ReturnCode::FAIL
        }
    }

    /// Build and record the continuous-wave-mode setup record with the
    /// given override table addresses and transmit power.
    pub fn setup_cwm(
        &mut self,
        reg_overrides: u32,
        tx_std_overrides: u32,
        tx_20_overrides: u32,
        tx_power: u16,
    )
        ensures
            final(self).setup_cmd == Some(
                spec_div_setup_command(tx_power, reg_overrides, tx_std_overrides, tx_20_overrides),
            ),
            final(self).rfc == old(self).rfc,
            final(self).tx_buf == old(self).tx_buf,
            final(self).tx_staging == old(self).tx_staging,
            final(self).tx_power == old(self).tx_power,
            final(self).pa_type == old(self).pa_type,
            final(self).schedule_powerdown == old(self).schedule_powerdown,
            final(self).can_sleep == old(self).can_sleep,
            final(self).tx_cmd == old(self).tx_cmd,
            final(self).rx_cmd == old(self).rx_cmd,
            final(self).fs_cmd == old(self).fs_cmd,
            final(self).power_events == old(self).power_events,
            final(self).applied_overrides == old(self).applied_overrides,
            final(self).wf() == old(self).wf(),
    {
        let mut cond = RfcCondition(0);
        cond.set_rule(0x01);
        let mut mdl = RfcModulation(0);
        mdl.set_mod_type(0x01);
        mdl.set_deviation(0x64);
        mdl.set_deviation_step(0x0);
        let mut sr = RfcSymbolRate(0);
        sr.set_prescale(0xF);
        sr.set_rate_word(0x8000);
        let mut preamble = RfcPreambleConf(0);
        preamble.set_num_preamble_bytes(0x4);
        preamble.set_pream_mode(false);
        let mut format = RfcFormatConf(0);
        format.set_num_syncword_bits(0x20);
        format.set_bit_reversal(false);
        format.set_msb_first(true);
        format.set_fec_mode(0x0);
        format.set_whiten_mode(0x0);
        let mut cfg = RfcSetupConfig(0);
        cfg.set_frontend_mode(0);
        cfg.set_bias_mode(true);
        cfg.set_analog_config_mode(0x0);
        cfg.set_no_fs_powerup(false);
        let setup_cmd = CommandRadioDivSetup_P {
            command_no: 0x3807,
            status: 0,
            p_nextop: 0,
            start_time: 0,
            start_trigger: 0,
            condition: cond,
            modulation: mdl,
            symbol_rate: sr,
            rx_bandwidth: 0x52,
            preamble_conf: preamble,
            format_conf: format,
            config: cfg,
            tx_power,
            reg_overrides,
            center_freq: 0x0395,
            int_freq: 0x8000,
            lo_divider: 0x05,
            reg_override_tx_std: tx_std_overrides,
            reg_override_tx_20: tx_20_overrides,
        };
        proof {
            let ghost cond_bits = cond.0;
            assert(cond_bits == 0x01u8) by (bit_vector)
                requires
                    cond_bits == ((0u8 & !0xfu8) | ((0x1u8 & 0xfu8) << 0u32)),
            ;
            let ghost mdl_bits = mdl.0;
            assert(mdl_bits == 0x0321u16) by (bit_vector)
                requires
                    mdl_bits == ((((((0u16 & !0x7u16) | ((0x1u16 & 0x7u16) << 0u32)) & !0x3ff8u16) | ((0x64u16 & 0x7ffu16) << 3u32)) & !0xc000u16) | ((0x0u16 & 0x3u16) << 14u32)),
            ;
            let ghost sr_bits = sr.0;
            assert(sr_bits == 0x0080000Fu32) by (bit_vector)
                requires
                    sr_bits == ((((0u32 & !0xffu32) | ((0xfu32 & 0xffu32) << 0u32)) & !0x1fffff00u32) | ((0x8000u32 & 0x1fffffu32) << 8u32)),
            ;
            let ghost preamble_bits = preamble.0;
            assert(preamble_bits == 0x04u8) by (bit_vector)
                requires
                    preamble_bits == (((0u8 & !0x3fu8) | ((0x4u8 & 0x3fu8) << 0u32)) & !0x40u8),
            ;
            let ghost format_bits = format.0;
            assert(format_bits == 0x00A0u16) by (bit_vector)
                requires
                    format_bits == ((((((((0u16 & !0x3fu16) | ((0x20u16 & 0x3fu16) << 0u32)) & !0x40u16) | 0x80u16) & !0xf00u16) | ((0x0u16 & 0xfu16) << 8u32)) & !0xe000u16) | ((0x0u16 & 0x7u16) << 13u32)),
            ;
            let ghost cfg_bits = cfg.0;
            assert(cfg_bits == 0x0008u16) by (bit_vector)
                requires
                    cfg_bits == ((((((0u16 & !0x7u16) | ((0x0u16 & 0x7u16) << 0u32)) | 0x8u16) & !0x3f0u16) | ((0x0u16 & 0x3fu16) << 4u32)) & !0x400u16),
            ;
        }
        self.setup_cmd = Some(setup_cmd);
    }

    /// Build the continuous-wave transmitter-test record.
    pub fn test_radio_cwm(&self) -> (cmd: CommandTxTest)
        ensures
            cmd.command_no == 0x808 && cmd.status == 0 && cmd.p_nextop == 0 && cmd.start_time == 0
                && cmd.start_trigger == 0 && cmd.condition.0 == 0x01 && cmd.config.0 == 0x01
                && cmd.tx_word == 0xAAAA && cmd.end_trigger.0 == 0x01 && cmd.sync_word
                == 0x930B51DE && cmd.end_time == 0,
    {
        let mut cond = RfcCondition(0);
        cond.set_rule(0x01);
        let mut conf = RfcTxTestConf(0);
        conf.set_use_cw(true);
        conf.set_fs_off(false);
        conf.set_whiten_mode(0x0);
        let mut trig = RfcTrigger(0);
        trig.set_trigger_type(0x01);
        trig.set_enable_cmd(false);
        trig.set_trigger_no(0x0);
        trig.set_past_trigger(false);
        let cmd_cwm = CommandTxTest {
            command_no: 0x808,
            status: 0,
            p_nextop: 0,
            start_time: 0,
            start_trigger: 0,
            condition: cond,
            config: conf,
            _reserved0: 0,
            tx_word: 0xAAAA,
            _reserved1: 0,
            end_trigger: trig,
            sync_word: 0x930B51DE,
            end_time: 0x00000000,
        };
        proof {
            let ghost cond_bits = cond.0;
            assert(cond_bits == 0x01u8) by (bit_vector)
                requires
                    cond_bits == ((0u8 & !0xfu8) | ((0x1u8 & 0xfu8) << 0u32)),
            ;
            let ghost conf_bits = conf.0;
            assert(conf_bits == 0x01u8) by (bit_vector)
                requires
                    conf_bits == ((((0u8 | 0x1u8) & !0x2u8) & !0xcu8) | ((0x0u8 & 0x3u8) << 2u32)),
            ;
            let ghost trig_bits = trig.0;
            assert(trig_bits == 0x01u8) by (bit_vector)
                requires
                    trig_bits == ((((((0u8 & !0xfu8) | ((0x1u8 & 0xfu8) << 0u32)) & !0x10u8) & !0x60u8) | ((0x0u8 & 0x3u8) << 5u32)) & !0x80u8),
            ;
        }
        cmd_cwm
    }

    /// Transmit completion: the retained caller's buffer is handed back
    /// for return to the transmit client; a scheduled power-down is
    /// carried out first.
    pub fn tx_done(&mut self) -> (r: Option<Vec<u8>>)
        ensures
            r == old(self).tx_buf,
            final(self).tx_buf is None,
            final(self).tx_staging == old(self).tx_staging,
            final(self).tx_power == old(self).tx_power,
            final(self).wf() == old(self).wf(),
            !final(self).schedule_powerdown,
            old(self).schedule_powerdown ==> !final(self).rfc.enabled && final(self).power_events@
                == old(self).power_events@.push(false),
            !old(self).schedule_powerdown ==> final(self).rfc == old(self).rfc && final(self).power_events == old(self).power_events,
    {
        if self.schedule_powerdown {
            self.power_down();
            self.schedule_powerdown = false;
        }
        self.tx_buf.take()
    }

    /// Generic command completion: like `tx_done`, the retained buffer,
    /// if any, goes back to its client.
    pub fn command_done(&mut self) -> (r: Option<Vec<u8>>)
        ensures
            r == old(self).tx_buf,
            final(self).tx_buf is None,
            final(self).tx_staging == old(self).tx_staging,
            final(self).tx_power == old(self).tx_power,
            final(self).wf() == old(self).wf(),
            !final(self).schedule_powerdown,
            old(self).schedule_powerdown ==> !final(self).rfc.enabled && final(self).power_events@
                == old(self).power_events@.push(false),
            !old(self).schedule_powerdown ==> final(self).rfc == old(self).rfc && final(self).power_events == old(self).power_events,
    {
        if self.schedule_powerdown {
            self.power_down();
            self.schedule_powerdown = false;
        }
        self.tx_buf.take()
    }

    /// Receive completion: the filled queue entry starts with a length
    /// byte followed by that many payload bytes; the payload is copied
    /// out of the ring into a stable buffer and handed on together with
    /// the frame length and the frame-check verdict.
    pub fn rx_ok(&mut self, entry: &Vec<u8>) -> (r: (Vec<u8>, usize, bool))
        requires
            entry@.len() >= 1,
            1 + entry@[0] <= entry@.len(),
        ensures
            r.1 == entry@[0] as int,
            r.0@.len() == r.1,
            forall|i: int| 0 <= i < r.1 ==> r.0@[i] == entry@[1 + i],
            r.2 == true,
            *final(self) == *old(self),
    {
        let length = entry[0] as usize;
        let mut payload: Vec<u8> = Vec::new();
        let mut i: usize = 0;
        while i < length
            invariant
                length == entry@[0] as int,
                1 + length <= entry@.len(),
                i <= length,
                payload@.len() == i,
                forall|k: int| 0 <= k < i ==> payload@[k] == entry@[1 + k],
            decreases length - i,
        {
            let b = entry[1 + i];
            payload.push(b);
            i = i + 1;
        }
        (payload, length, true)
    }

    /// Recover from a failed power-up: power down, then run the
    /// power-up protocol again. The power client hears of both changes,
    /// in order.
    pub fn reset(&mut self) -> (steps: Vec<PowerStep>)
        ensures
            final(self).rfc.enabled,
            final(self).rfc.rat_running,
            final(self).rfc.mode == Some(RfcMode::BLE),
            steps@ == spec_power_up_steps(),
            final(self).power_events@ == old(self).power_events@.push(false).push(true),
            final(self).tx_buf == old(self).tx_buf,
            final(self).tx_staging == old(self).tx_staging,
            final(self).tx_power == old(self).tx_power,
            final(self).tx_cmd == old(self).tx_cmd,
            final(self).rx_cmd == old(self).rx_cmd,
            final(self).wf() == old(self).wf(),
    {
        self.power_down();
        self.power_up()
    }

    /// Whether the radio core is powered.
    pub fn is_on(&self) -> (r: bool)
        ensures
            r == self.rfc.enabled,
    {
        self.rfc.enabled
    }

    /// Gracefully stop the running radio operation; `cmdsta` is the
    /// acknowledgement word.
    pub fn stop(&mut self, cmdsta: u32) -> (r: ReturnCode)
        ensures
            !old(self).rfc.enabled ==> r == ReturnCode::FAIL && final(self).rfc == old(self).rfc,
            old(self).rfc.enabled ==> (r == ReturnCode::SUCCESS <==> cmdr_result(cmdsta) is Ok),
            old(self).rfc.enabled && !(cmdr_result(cmdsta) is Ok) ==> r == ReturnCode::FAIL,
            old(self).rfc.enabled ==> final(self).rfc.status == cmdsta && final(self).rfc.enabled
                && final(self).rfc.pending_op == old(self).rfc.pending_op,
            final(self).power_events == old(self).power_events,
            final(self).tx_buf == old(self).tx_buf,
            final(self).tx_staging == old(self).tx_staging,
            final(self).wf() == old(self).wf(),
    {
        self.send_stop_command(cmdsta)
    }

    /// Commit configuration changes; nothing is batched on this
    /// hardware, so the commit always succeeds.
    pub fn config_commit(&mut self) -> (r: ReturnCode)
        ensures
            r == ReturnCode::SUCCESS,
            *final(self) == *old(self),
    {
        ReturnCode::SUCCESS
    }

    /// Raw power status word of the radio domain; this hardware exposes
    /// none beyond the enable flag, so the word is zero.
    pub fn get_radio_status(&self) -> (r: u32)
        ensures
            r == 0,
    {
        0x00000000
    }

    /// Cap the transmit power to what the installed amplifier tolerates.
    pub fn set_pa_restriction(&mut self)
        ensures
            final(self).tx_power == match old(self).pa_type {
                PaType::Skyworks => if old(self).tx_power > 0x3248 {
                    0x3248u16
                } else {
                    old(self).tx_power
                },
                _ => old(self).tx_power,
            },
            final(self).pa_type == old(self).pa_type,
            final(self).rfc == old(self).rfc,
            final(self).tx_buf == old(self).tx_buf,
            final(self).tx_staging == old(self).tx_staging,
            final(self).schedule_powerdown == old(self).schedule_powerdown,
            final(self).can_sleep == old(self).can_sleep,
            final(self).tx_cmd == old(self).tx_cmd,
            final(self).rx_cmd == old(self).rx_cmd,
            final(self).fs_cmd == old(self).fs_cmd,
            final(self).setup_cmd == old(self).setup_cmd,
            final(self).power_events == old(self).power_events,
            final(self).applied_overrides == old(self).applied_overrides,
            final(self).wf() == old(self).wf(),
    {
        match self.pa_type {
            PaType::NONE => {}
            PaType::Internal => {}
            PaType::Skyworks => {
                if self.tx_power > 0x3248 {
                    self.tx_power = 0x3248;
                }
            }
        }
    }

    /// Set the transmit power: the value is capped for the installed
    /// amplifier and submitted as a direct command; `cmdsta` is the
    /// acknowledgement word.
    pub fn set_tx_power(&mut self, power: u16, cmdsta: u32) -> (r: ReturnCode)
        ensures
            final(self).tx_power == match old(self).pa_type {
                PaType::Skyworks => if power > 0x3248 {
                    0x3248u16
                } else {
                    power
                },
                _ => power,
            },
            !old(self).rfc.enabled ==> r == ReturnCode::FAIL,
            old(self).rfc.enabled ==> (r == ReturnCode::SUCCESS <==> cmdr_result(cmdsta) is Ok),
            old(self).rfc.enabled && !(cmdr_result(cmdsta) is Ok) ==> r == ReturnCode::FAIL,
            !old(self).rfc.enabled ==> final(self).rfc == old(self).rfc,
            old(self).rfc.enabled ==> final(self).rfc.status == cmdsta && final(self).rfc.enabled
                && final(self).rfc.mode == old(self).rfc.mode && final(self).rfc.rat_running
                == old(self).rfc.rat_running && final(self).rfc.pending_op == old(self).rfc.pending_op,
            final(self).power_events == old(self).power_events,
            final(self).tx_buf == old(self).tx_buf,
            final(self).tx_staging == old(self).tx_staging,
            final(self).tx_cmd == old(self).tx_cmd,
            final(self).rx_cmd == old(self).rx_cmd,
            final(self).fs_cmd == old(self).fs_cmd,
            final(self).setup_cmd == old(self).setup_cmd,
            final(self).wf() == old(self).wf(),
    {
        self.tx_power = power;
        self.set_pa_restriction();
        let command = DirectCommand::new(0x0010, self.tx_power);
        if self.rfc.send_direct(&command, cmdsta).is_ok() {
            ReturnCode::SUCCESS
        } else {
            ReturnCode::FAIL
        }
    }

    /// Send the graceful stop direct command; `cmdsta` is the
    /// acknowledgement word.
    pub fn send_stop_command(&mut self, cmdsta: u32) -> (r: ReturnCode)
        ensures
            !old(self).rfc.enabled ==> r == ReturnCode::FAIL,
            old(self).rfc.enabled ==> (r == ReturnCode::SUCCESS <==> cmdr_result(cmdsta) is Ok),
            old(self).rfc.enabled && !(cmdr_result(cmdsta) is Ok) ==> r == ReturnCode::FAIL,
            !old(self).rfc.enabled ==> final(self).rfc == old(self).rfc,
            old(self).rfc.enabled ==> final(self).rfc.status == cmdsta && final(self).rfc.enabled
                && final(self).rfc.mode == old(self).rfc.mode && final(self).rfc.rat_running
                == old(self).rfc.rat_running && final(self).rfc.pending_op == old(self).rfc.pending_op,
            final(self).power_events == old(self).power_events,
            final(self).tx_buf == old(self).tx_buf,
            final(self).tx_staging == old(self).tx_staging,
            final(self).tx_cmd == old(self).tx_cmd,
            final(self).rx_cmd == old(self).rx_cmd,
            final(self).fs_cmd == old(self).fs_cmd,
            final(self).setup_cmd == old(self).setup_cmd,
            final(self).wf() == old(self).wf(),
    {
        let command = DirectCommand::new(0x0402, 0);
        if self.rfc.send_direct(&command, cmdsta).is_ok() {
            ReturnCode::SUCCESS
        } else {
            ReturnCode::FAIL
        }
    }

    /// Send the kill direct command aborting all radio operations;
    /// `cmdsta` is the acknowledgement word.
    pub fn send_kill_command(&mut self, cmdsta: u32) -> (r: ReturnCode)
        ensures
            !old(self).rfc.enabled ==> r == ReturnCode::FAIL,
            old(self).rfc.enabled ==> (r == ReturnCode::SUCCESS <==> cmdr_result(cmdsta) is Ok),
            old(self).rfc.enabled && !(cmdr_result(cmdsta) is Ok) ==> r == ReturnCode::FAIL,
            !old(self).rfc.enabled ==> final(self).rfc == old(self).rfc,
            old(self).rfc.enabled ==> final(self).rfc.status == cmdsta && final(self).rfc.enabled
                && final(self).rfc.mode == old(self).rfc.mode && final(self).rfc.rat_running
                == old(self).rfc.rat_running && final(self).rfc.pending_op == old(self).rfc.pending_op,
            final(self).power_events == old(self).power_events,
            final(self).tx_buf == old(self).tx_buf,
            final(self).tx_staging == old(self).tx_staging,
            final(self).tx_cmd == old(self).tx_cmd,
            final(self).rx_cmd == old(self).rx_cmd,
            final(self).fs_cmd == old(self).fs_cmd,
            final(self).setup_cmd == old(self).setup_cmd,
            final(self).wf() == old(self).wf(),
    {
        let command = DirectCommand::new(0x0401, 0);
        if self.rfc.send_direct(&command, cmdsta).is_ok() {
            ReturnCode::SUCCESS
        } else {
            ReturnCode::FAIL
        }
    }

    /// Whether a command is waiting or running right now.
    pub fn busy(&self) -> (r: bool)
        ensures
            r == (self.rfc.status == 0x0001 || self.rfc.status == 0x0002),
    {
        self.rfc.status == 0x0001 || self.rfc.status == 0x0002
    }

    /// Classify the last status word: in-progress and done-class words
    /// report success, error-class words report failure, anything else
    /// is invalid; the raw word always comes along for diagnostics.
    pub fn get_command_status(&self) -> (r: (ReturnCode, Option<u32>))
        ensures
            r.1 == Some(self.rfc.status),
            self.rfc.status & 0x0F00 == 0x0000 ==> r.0 == ReturnCode::SUCCESS,
            self.rfc.status & 0x0F00 == 0x0400 ==> r.0 == ReturnCode::SUCCESS,
            self.rfc.status & 0x0F00 == 0x0800 ==> r.0 == ReturnCode::FAIL,
            self.rfc.status & 0x0F00 != 0x0000 && self.rfc.status & 0x0F00 != 0x0400
                && self.rfc.status & 0x0F00 != 0x0800 ==> r.0 == ReturnCode::EINVAL,
    {
        let status = self.rfc.status;
        let class = status & 0x0F00;
        if class == 0x0000 {
            (ReturnCode::SUCCESS, Some(status))
        } else if class == 0x0400 {
            (ReturnCode::SUCCESS, Some(status))
        } else if class == 0x0800 {
            (ReturnCode::FAIL, Some(status))
        } else {
            (ReturnCode::EINVAL, Some(status))
        }
    }

    /// The configured transmit power code.
    pub fn get_tx_power(&self) -> (r: u16)
        ensures
            r == self.tx_power,
    {
        self.tx_power
    }
}


/// Which exercise of the radio a test request asks for.
#[derive(Copy, Clone, Debug, PartialEq, Eq, Structural)]
pub enum TestType {
    Tx,
    Rx,
    Cwm,
}

/// The test type a raw test number decodes to, if any.
pub open spec fn spec_test_type_from(v: u8) -> Option<TestType> {
    if v == 0 {
        Some(TestType::Tx)
    } else if v == 1 {
        Some(TestType::Rx)
    } else if v == 2 {
        Some(TestType::Cwm)
    } else {
        None
    }
}

impl TestType {
    /// Decode a raw test number.
    pub fn from_u8(v: u8) -> (r: Option<TestType>)
        ensures
            r == spec_test_type_from(v),
    {
        if v == 0 {
            Some(TestType::Tx)
        } else if v == 1 {
            Some(TestType::Rx)
        } else if v == 2 {
            Some(TestType::Cwm)
        } else {
            None
        }
    }
}

/// The transmit power code a test power level selects, if it changes
/// the configured one: level two and level nine pick their calibrated
/// codes, level ten keeps what is configured, anything else falls back
/// to the level-two tables without touching the power code.
pub open spec fn spec_test_tx_power(power: u8) -> Option<u16> {
    if power == 2 {
        Some(0x12C9u16)
    } else if power == 9 {
        Some(0x38DAu16)
    } else {
        None
    }
}

impl Radio {
    /// Build the fixed loop-back test transmit: a 32-byte payload of
    /// sequential bytes and the record sending its first twenty bytes.
    pub fn test_radio_tx(&self) -> (r: (CommandTx, Vec<u8>))
        ensures
            r.0 == spec_tx_command(0x14),
            r.1@.len() == 32,
            forall|i: int| 0 <= i < 32 ==> r.1@[i] == i as u8,
    {
        let mut packet: Vec<u8> = Vec::new();
        let mut seq: u8 = 0;
        while (seq as usize) < 32
            invariant
                seq <= 32,
                packet@.len() == seq,
                forall|i: int| 0 <= i < seq ==> packet@[i] == i as u8,
            decreases 32 - seq,
        {
            packet.push(seq);
            seq = seq + 1;
        }
        let mut trig = RfcTrigger(0);
        trig.set_trigger_type(0);
        trig.set_enable_cmd(false);
        trig.set_trigger_no(0);
        trig.set_past_trigger(true);
        let mut cond = RfcCondition(0);
        cond.set_rule(0x01);
        let mut conf = RfcPacketConfTx(0);
        conf.set_fs_off(false);
        conf.set_use_crc(true);
        conf.set_var_len(true);
        proof {
            let ghost trig_bits = trig.0;
            assert(trig_bits == 0x80u8) by (bit_vector)
                requires
                    trig_bits == ((((((0u8 & !0xfu8) | ((0x0u8 & 0xfu8) << 0u32)) & !0x10u8)
                        & !0x60u8) | ((0x0u8 & 0x3u8) << 5u32)) | 0x80u8),
            ;
            let ghost cond_bits = cond.0;
            assert(cond_bits == 0x01u8) by (bit_vector)
                requires
                    cond_bits == ((0u8 & !0xfu8) | ((0x1u8 & 0xfu8) << 0u32)),
            ;
            let ghost conf_bits = conf.0;
            assert(conf_bits == 0x18u8) by (bit_vector)
                requires
                    conf_bits == (((0u8 & !0x1u8) | 0x8u8) | 0x10u8),
            ;
        }
        let cmd = CommandTx {
            command_no: 0x3801,
            status: 0,
            p_nextop: 0,
            start_time: 0,
            start_trigger: trig,
            condition: cond,
            packet_conf: conf,
            packet_len: 0x14,
            sync_word: 0x00000000,
            packet_pointer: 0,
        };
        (cmd, packet)
    }

    /// Arm the loop-back test receive: the same record and ring setup
    /// as the ordinary receive path.
    pub fn test_radio_rx(&mut self) -> (r: ReturnCode)
        ensures
            r == ReturnCode::SUCCESS,
            final(self).rx_cmd == Some(spec_rx_command()),
            final(self).rfc == old(self).rfc,
            final(self).tx_buf == old(self).tx_buf,
            final(self).tx_staging == old(self).tx_staging,
            final(self).wf() == old(self).wf(),
    {
        self.start_rx_cmd()
    }

    /// The register override table a test type applies: continuous-wave
    /// mode uses its own table, transmit and receive use the long-range
    /// one.
    pub open spec fn spec_test_reg_table(t: TestType) -> Seq<u32> {
        match t {
            TestType::Cwm => crate::radio::commands::spec_cwm_rfparams(),
            _ => crate::radio::commands::spec_lr_rfparams(),
        }
    }

    /// The standard-amplifier transmit override table a test power
    /// level selects; an unknown level falls back to the level-two
    /// table.
    pub open spec fn spec_test_std_table(power: u8) -> Seq<u32> {
        if power == 9 {
            crate::radio::commands::spec_tx_std_params_9()
        } else if power == 10 {
            crate::radio::commands::spec_tx_std_params_10()
        } else {
            crate::radio::commands::spec_tx_std_params_2()
        }
    }

    /// Run one radio self-test: decode the test number, select the
    /// override tables and power code the requested level calls for
    /// (continuous-wave mode uses its own register table, level ten
    /// keeps the configured power code), apply the tables, record the
    /// setup and frequency-select commands, and return the decoded test
    /// so the runtime can issue the matching operation. An unknown test
    /// number does nothing.
    pub fn run_tests(&mut self, test: u8, power: u8) -> (r: Option<TestType>)
        requires
            old(self).wf(),
        ensures
            final(self).wf(),
            r == spec_test_type_from(test),
            r is None ==> *final(self) == *old(self),
            r matches Some(t) ==> {
                &&& final(self).tx_power == match spec_test_tx_power(power) {
                    Some(p) => p,
                    None => old(self).tx_power,
                }
                &&& final(self).rfc.mode == Some(RfcMode::BLE) && final(self).rfc.enabled
                    && final(self).rfc.rat_running
                &&& final(self).applied_overrides matches Some(a) && a.0@
                    == Self::spec_test_reg_table(t) && a.1@ == Self::spec_test_std_table(power)
                    && a.2@ == crate::radio::commands::spec_tx_20_params()
                &&& final(self).setup_cmd == Some(
                    spec_div_setup_command(final(self).tx_power, 0, 0, 0),
                )
                &&& final(self).fs_cmd == Some(spec_fs_command(0x038B, 0x0000))
            },
    {
        let decoded = TestType::from_u8(test);
        let cwm = match decoded {
            Some(TestType::Cwm) => true,
            Some(_) => false,
            None => {
                return None;
            }
        };
        self.rfc.set_mode(RfcMode::BLE);
        self.rfc.enable();
        self.rfc.start_rat();
        if power == 2 {
            self.tx_power = 0x12C9;
        } else if power == 9 {
            self.tx_power = 0x38DA;
        }
        let reg_table = if cwm {
            crate::radio::commands::cwm_rfparams()
        } else {
            crate::radio::commands::lr_rfparams()
        };
        let std_table = if power == 9 {
            crate::radio::commands::tx_std_params_9()
        } else if power == 10 {
            crate::radio::commands::tx_std_params_10()
        } else {
            crate::radio::commands::tx_std_params_2()
        };
        let tx_20_table = crate::radio::commands::tx_20_params();
        proof {
            assert(reg_table@[reg_table@.len() - 1] == crate::radio::commands::OVERRIDE_SENTINEL);
            assert(std_table@[std_table@.len() - 1] == crate::radio::commands::OVERRIDE_SENTINEL);
            assert(tx_20_table@[tx_20_table@.len() - 1]
                == crate::radio::commands::OVERRIDE_SENTINEL);
        }
        let applied = self.rfc.setup(&reg_table, &std_table, &tx_20_table, self.tx_power);
        proof {
            assert(forall|j: int|
                0 <= j < reg_table@.len() - 1 ==> reg_table@[j]
                    != crate::radio::commands::OVERRIDE_SENTINEL);
            assert(forall|j: int|
                0 <= j < std_table@.len() - 1 ==> std_table@[j]
                    != crate::radio::commands::OVERRIDE_SENTINEL);
            assert(forall|j: int|
                0 <= j < tx_20_table@.len() - 1 ==> tx_20_table@[j]
                    != crate::radio::commands::OVERRIDE_SENTINEL);
            crate::radio::commands::lemma_collect_whole_table(reg_table@, applied.0@);
            crate::radio::commands::lemma_collect_whole_table(std_table@, applied.1@);
            crate::radio::commands::lemma_collect_whole_table(tx_20_table@, applied.2@);
        }
        self.applied_overrides = Some(applied);
        self.setup_cwm(0, 0, 0, self.tx_power);
        self.set_radio_fs();
        decoded
    }
}

} // verus!
