//! Virtual radio: gives the single physical radio one transmit, receive
//! and power client triple with busy-retry semantics.
//!
//! A transmit attempted while the radio is still starting up is deferred
//! (`TxPending`) rather than lost, and a busy response from the hardware
//! during `TxPending` triggers one automatic resubmission of the same
//! buffer — the only place automatic retry occurs, bounded to one
//! in-flight attempt at a time.

use crate::channels::ChannelParams;
use crate::radio::multimode::{
    spec_power_up_steps, spec_tx_command, PowerStep, Radio, MAX_TX_LENGTH,
};
use crate::radio::rfc::{cmdr_result, RfcMode};
use crate::returncode::ReturnCode;
use vstd::prelude::*;

verus! {

/// Interface the virtual radio offers the layer above it.
pub trait RFCore {
    /// Initialize the layer, powering the radio up.
    fn initialize(&mut self) -> ReturnCode;

    /// Whether the radio is on and ready to accept commands.
    fn is_on(&self) -> bool;

    /// Commit configuration changes to hardware.
    fn config_commit(&mut self) -> ReturnCode;

    /// Whether the protocol layer is active and can send frames.
    fn get_radio_status(&self) -> bool;

    /// Send the graceful stop command; the acknowledgement word comes
    /// from the doorbell.
    fn send_stop_command(&mut self, cmdsta: u32) -> ReturnCode;

    /// Send the kill command; the acknowledgement word comes from the
    /// doorbell.
    fn send_kill_command(&mut self, cmdsta: u32) -> ReturnCode;

    /// The classification and raw value of the last command status.
    fn get_command_status(&self) -> (ReturnCode, Option<u32>);

    /// Set the transmit power.
    fn set_tx_power(&mut self, power: u16, cmdsta: u32) -> ReturnCode;

    /// Park the synthesizer on the configured channel.
    fn set_frequency(&mut self, cmdsta: u32) -> ReturnCode;

    /// Transmit a complete frame; the buffer comes back on rejection.
    fn transmit(&mut self, full_mac_frame: Vec<u8>, data_len: usize) -> (
        ReturnCode,
        Option<Vec<u8>>,
    );
}

/// Lifecycle state of the virtual radio.
#[derive(Copy, Clone, Debug, PartialEq, Eq, Structural)]
pub enum RadioState {
    Sleep,
    Awake,
    StartUp,
    TxDone,
    TxPending,
    TxDelay,
}

/// When an application alarm fires.
#[derive(Copy, Clone, Debug, PartialEq, Eq, Structural)]
pub enum Expiration {
    Disabled,
    Abs(u32),
}

/// Base time and expiration of an application alarm.
#[derive(Copy, Clone, Debug, PartialEq, Eq, Structural)]
pub struct AlarmData {
    pub t0: u32,
    pub expiration: Expiration,
}

impl AlarmData {
    /// A disabled alarm.
    pub fn new() -> (r: AlarmData)
        ensures
            r.t0 == 0,
            r.expiration == Expiration::Disabled,
    {
        AlarmData { t0: 0, expiration: Expiration::Disabled }
    }
}

/// Per-process state of the radio driver: lifecycle, alarm, channel
/// metadata and the pseudo-random state used to jitter channel hops.
pub struct App {
    pub process_status: Option<RadioState>,
    pub alarm_data: AlarmData,
    pub adv_data: Option<ChannelParams>,
    pub channel_interval_ms: u32,
    pub tx_power: u16,
    /// State of the app-specific pseudo-random number; read through
    /// `random_nonce`, which updates it as well.
    pub random_nonce: u32,
}

/// One xorshift round: the generator state after `x`.
pub open spec fn xorshift32(x: u32) -> u32 {
    let a = x ^ (x << 13u32);
    let b = a ^ (a >> 17u32);
    b ^ (b << 5u32)
}

impl App {
    /// A fresh process slot: asleep, alarm disabled, with a non-zero
    /// seed for the pseudo-random state.
    pub fn new() -> (r: App)
        ensures
            r.process_status == Some(RadioState::Sleep),
            r.alarm_data.expiration == Expiration::Disabled,
            r.adv_data is None,
            r.channel_interval_ms == 200,
            r.tx_power == 0,
            r.random_nonce == 0xdeadbeef,
    {
        App {
            process_status: Some(RadioState::Sleep),
            alarm_data: AlarmData::new(),
            adv_data: None,
            channel_interval_ms: 200,
            tx_power: 0,
            random_nonce: 0xdeadbeef,
        }
    }

    /// Advance the xorshift generator and return the new value.
    pub fn random_nonce(&mut self) -> (r: u32)
        ensures
            r == xorshift32(old(self).random_nonce),
            final(self).random_nonce == r,
            final(self).process_status == old(self).process_status,
            final(self).alarm_data == old(self).alarm_data,
            final(self).adv_data == old(self).adv_data,
            final(self).channel_interval_ms == old(self).channel_interval_ms,
            final(self).tx_power == old(self).tx_power,
    {
        let mut next_nonce: u32 = self.random_nonce;
        next_nonce = next_nonce ^ (next_nonce << 13u32);
        next_nonce = next_nonce ^ (next_nonce >> 17u32);
        next_nonce = next_nonce ^ (next_nonce << 5u32);
        self.random_nonce = next_nonce;
        self.random_nonce
    }

    /// Arm the next alarm: the period is the channel interval jittered
    /// by up to nine milliseconds of pseudo-randomness, scaled by the
    /// timer frequency, and the expiration wraps around the timer width.
    pub fn set_next_alarm(&mut self, now: u32, frequency: u32)
        requires
            (old(self).channel_interval_ms + 10) * frequency <= u32::MAX * 1000,
        ensures
            final(self).alarm_data.t0 == now,
            final(self).random_nonce == xorshift32(old(self).random_nonce),
            ({
                let nonce = xorshift32(old(self).random_nonce) % 10;
                let period_ms = ((old(self).channel_interval_ms + nonce) * frequency / 1000) as u32;
                final(self).alarm_data.expiration == Expiration::Abs(
                    ((now + period_ms) % 0x100000000) as u32,
                )
            }),
            final(self).process_status == old(self).process_status,
            final(self).adv_data == old(self).adv_data,
            final(self).channel_interval_ms == old(self).channel_interval_ms,
            final(self).tx_power == old(self).tx_power,
    {
        self.alarm_data.t0 = now;
        let nonce = self.random_nonce() % 10;
        proof {
            assert((self.channel_interval_ms + nonce) * frequency <= (
            self.channel_interval_ms + 10) * frequency) by (nonlinear_arith)
                requires
                    nonce < 10,
            ;
        }
        let scaled: u64 = (self.channel_interval_ms as u64 + nonce as u64) * (frequency as u64);
        let period_ms: u32 = (scaled / 1000) as u32;
        let expiration: u32 = if now <= u32::MAX - period_ms {
            now + period_ms
        } else {
            period_ms - (u32::MAX - now) - 1
        };
        proof {
            assert(expiration == (now + period_ms) % 0x100000000int) by (nonlinear_arith)
                requires
                    now <= u32::MAX,
                    period_ms <= u32::MAX,
                    expiration == if now + period_ms <= u32::MAX {
                        now + period_ms
                    } else {
                        now + period_ms - 0x100000000
                    },
            ;
        }
        self.alarm_data.expiration = Expiration::Abs(expiration);
    }
}

/// The virtual radio: the owned physical radio, the single deferred
/// payload, the lifecycle state, and the completions handed to the
/// transmit client, oldest first.
pub struct VirtualRadio {
    /// The physical radio this layer virtualizes.
    pub radio: Radio,
    /// The frame accepted from the client and not yet handed to the
    /// physical radio.
    pub tx_payload: Option<Vec<u8>>,
    /// Payload length of the accepted frame.
    pub tx_payload_len: usize,
    /// Whether a transmit is waiting for power-up to finish.
    pub tx_pending: bool,
    /// Lifecycle state.
    pub radio_state: RadioState,
    /// The channel the synthesizer is parked on.
    pub channel_params: ChannelParams,
    /// Buffers returned to the transmit client with their results,
    /// oldest first.
    pub tx_client_events: Vec<(Vec<u8>, ReturnCode)>,
    /// The power-up protocol steps the runtime still has to perform, in
    /// order; written whenever a power-up is initiated.
    pub power_steps: Vec<PowerStep>,
}

impl VirtualRadio {
    /// The accepted payload, when present, fits its buffer, and the
    /// physical radio is consistent.
    pub open spec fn wf(self) -> bool {
        &&& self.radio.wf()
        &&& (self.tx_payload matches Some(p) ==> self.tx_payload_len <= p@.len()
            && self.tx_payload_len <= MAX_TX_LENGTH)
    }

    /// A virtual radio wrapped around a physical one: asleep, nothing
    /// deferred, nothing delivered.
    pub fn new(radio: Radio) -> (r: VirtualRadio)
        ensures
            r.radio == radio,
            r.tx_payload is None,
            r.tx_payload_len == 0,
            !r.tx_pending,
            r.radio_state == RadioState::Sleep,
            r.tx_client_events@ == Seq::<(Vec<u8>, ReturnCode)>::empty(),
            r.power_steps@ == Seq::<PowerStep>::empty(),
    {
        VirtualRadio {
            radio,
            tx_payload: None,
            tx_payload_len: 0,
            tx_pending: false,
            radio_state: RadioState::Sleep,
            channel_params: ChannelParams { frequency: 0x038A, fract_freq: 0x0000 },
            tx_client_events: Vec::new(),
            power_steps: Vec::new(),
        }
    }

    /// Hand a buffer back to the transmit client with its result; the
    /// radio is awake again.
    pub fn send_client_result(&mut self, buf: Vec<u8>, result: ReturnCode)
        ensures
            final(self).radio_state == RadioState::Awake,
            final(self).tx_client_events@ == old(self).tx_client_events@.push((buf, result)),
            final(self).radio == old(self).radio,
            final(self).tx_payload == old(self).tx_payload,
            final(self).tx_payload_len == old(self).tx_payload_len,
            final(self).tx_pending == old(self).tx_pending,
            final(self).channel_params == old(self).channel_params,
            final(self).power_steps == old(self).power_steps,
    {
        self.radio_state = RadioState::Awake;
        self.tx_client_events.push((buf, result));
    }

    /// Hand the accepted payload to the physical radio. On success the
    /// radio stages the packet and retains the buffer; on rejection the
    /// buffer goes back to the transmit client with the rejection code.
    /// With no payload accepted, nothing happens.
    pub fn transmit_packet(&mut self)
        requires
            old(self).wf(),
        ensures
            final(self).wf(),
            final(self).tx_payload is None,
            final(self).tx_pending == old(self).tx_pending,
            final(self).channel_params == old(self).channel_params,
            final(self).power_steps == old(self).power_steps,
            final(self).tx_payload_len == old(self).tx_payload_len,
            old(self).tx_payload is None ==> *final(self) == *old(self),
            old(self).tx_payload matches Some(p) ==> (if old(self).radio.tx_buf is None {
                final(self).radio.tx_buf == Some(p) && final(self).radio.tx_cmd == Some(
                    spec_tx_command(old(self).tx_payload_len as u8),
                ) && final(self).tx_client_events == old(self).tx_client_events && final(self).radio_state == old(self).radio_state
            } else {
                final(self).radio == old(self).radio && final(self).tx_client_events@ == old(self).tx_client_events@.push((p, ReturnCode::EBUSY)) && final(self).radio_state
                    == RadioState::Awake
            }),
    {
        let payload = self.tx_payload.take();
        match payload {
            Some(buf) => {
                let (result, rbuf) = self.radio.transmit(buf, self.tx_payload_len);
                match result {
                    ReturnCode::SUCCESS => {}
                    _ => {
                        match rbuf {
                            Some(b) => {
                                self.send_client_result(b, result);
                            }
                            None => {}
                        }
                    }
                }
            }
            None => {}
        }
    }

    /// Accept a frame for transmission. A second frame while one is
    /// already held is rejected busy; a frame longer than the hardware
    /// ceiling is rejected with a size error; in both cases the buffer
    /// comes straight back and nothing changes. An accepted frame is
    /// handed on at once when the radio is on, and deferred behind a
    /// power-up otherwise.
    pub fn transmit(&mut self, frame: Vec<u8>, data_len: usize) -> (r: (
        ReturnCode,
        Option<Vec<u8>>,
    ))
        requires
            old(self).wf(),
            data_len <= frame@.len(),
        ensures
            final(self).wf(),
            old(self).tx_payload is Some ==> r.0 == ReturnCode::EBUSY && r.1 == Some(frame)
                && *final(self) == *old(self),
            old(self).tx_payload is None && data_len > MAX_TX_LENGTH ==> r.0 == ReturnCode::ESIZE
                && r.1 == Some(frame) && *final(self) == *old(self),
            old(self).tx_payload is None && data_len <= MAX_TX_LENGTH ==> r.0
                == ReturnCode::SUCCESS && r.1 is None && final(self).tx_payload_len == data_len
                && final(self).power_steps@ == if old(self).radio.rfc.enabled {
                old(self).power_steps@
            } else {
                spec_power_up_steps()
            },
            old(self).tx_payload is None && data_len <= MAX_TX_LENGTH && old(self).radio.rfc.enabled
                ==> final(self).tx_payload is None && final(self).tx_pending == old(self).tx_pending
                && (if old(self).radio.tx_buf is None {
                final(self).radio.tx_buf == Some(frame) && final(self).radio.tx_cmd == Some(
                    spec_tx_command(data_len as u8),
                ) && final(self).radio_state == RadioState::TxPending
                    && final(self).tx_client_events == old(self).tx_client_events
            } else {
                final(self).tx_client_events@ == old(self).tx_client_events@.push(
                    (frame, ReturnCode::EBUSY),
                ) && final(self).radio_state == RadioState::Awake && final(self).radio == old(self).radio
            }),
            old(self).tx_payload is None && data_len <= MAX_TX_LENGTH && !old(self).radio.rfc.enabled ==> final(self).tx_payload == Some(frame) && final(self).tx_pending
                && final(self).radio_state == RadioState::StartUp && final(self).radio.rfc.enabled
                && final(self).radio.rfc.rat_running && final(self).radio.rfc.mode == Some(
                RfcMode::BLE,
            ) && final(self).radio.power_events@ == old(self).radio.power_events@.push(true),
    {
        if self.tx_payload.is_some() {
            return (ReturnCode::EBUSY, Some(frame));
        }
        if data_len > MAX_TX_LENGTH {
            return (ReturnCode::ESIZE, Some(frame));
        }
        self.tx_payload = Some(frame);
        self.tx_payload_len = data_len;
        if self.radio.rfc.enabled {
            self.radio_state = RadioState::TxPending;
            self.transmit_packet();
            (ReturnCode::SUCCESS, None)
        } else {
            self.radio_state = RadioState::StartUp;
            self.tx_pending = true;
            self.power_steps = self.radio.power_up();
            (ReturnCode::SUCCESS, None)
        }
    }

    /// Transmit completion from the physical radio. In `TxPending`, a
    /// success hands the buffer to the client and the state settles in
    /// `Awake`; a busy result resubmits the same buffer once; any other
    /// result marks the transmission done. In `TxDelay` the buffer is
    /// kept for a later retry.
    pub fn transmit_event(&mut self, buf: Vec<u8>, result: ReturnCode)
        requires
            old(self).wf(),
            old(self).tx_payload is None,
            old(self).tx_payload_len <= buf@.len(),
            old(self).tx_payload_len <= MAX_TX_LENGTH,
        ensures
            final(self).wf(),
            old(self).radio_state == RadioState::TxDone ==> final(self).radio_state
                == RadioState::Awake && final(self).tx_client_events@ == old(self).tx_client_events@.push((buf, result))
                && final(self).tx_payload is None && final(self).radio == old(self).radio,
            old(self).radio_state == RadioState::TxPending && result == ReturnCode::SUCCESS
                ==> final(self).radio_state == RadioState::Awake && final(self).tx_client_events@
                == old(self).tx_client_events@.push((buf, result)) && final(self).tx_payload
                is None && final(self).radio == old(self).radio,
            old(self).radio_state == RadioState::TxPending && result == ReturnCode::EBUSY ==> (
            final(self).tx_payload is None && (if old(self).radio.tx_buf is None {
                final(self).radio.tx_buf == Some(buf) && final(self).radio.tx_cmd == Some(
                    spec_tx_command(old(self).tx_payload_len as u8),
                ) && final(self).tx_client_events == old(self).tx_client_events
                    && final(self).radio_state == old(self).radio_state
            } else {
                final(self).tx_client_events@ == old(self).tx_client_events@.push(
                    (buf, ReturnCode::EBUSY),
                ) && final(self).radio_state == RadioState::Awake && final(self).radio == old(self).radio
            })),
            old(self).radio_state == RadioState::TxPending && result != ReturnCode::SUCCESS
                && result != ReturnCode::EBUSY ==> final(self).radio_state == RadioState::TxDone
                && final(self).tx_payload is None && final(self).radio == old(self).radio
                && final(self).tx_client_events == old(self).tx_client_events,
            old(self).radio_state == RadioState::TxDelay ==> final(self).tx_payload == Some(buf)
                && final(self).radio == old(self).radio,
            old(self).radio_state == RadioState::Sleep || old(self).radio_state
                == RadioState::Awake || old(self).radio_state == RadioState::StartUp ==> *final(self) == *old(self),
    {
        match self.radio_state {
            RadioState::TxDone => {
                self.send_client_result(buf, result);
            }
            RadioState::TxPending => {
                if matches!(result, ReturnCode::SUCCESS) {
                    self.radio_state = RadioState::TxDone;
                    self.send_client_result(buf, result);
                } else if matches!(result, ReturnCode::EBUSY) {
                    // The one automatic retry: resubmit the same buffer.
                    self.tx_payload = Some(buf);
                    self.transmit_packet();
                } else {
                    self.radio_state = RadioState::TxDone;
                }
            }
            RadioState::TxDelay => {
                // The last attempt failed; keep the buffer for a retry.
                self.tx_payload = Some(buf);
            }
            _ => {}
        }
    }

    /// Power-mode notification: once power-up finishes, a deferred
    /// transmit moves to `TxPending`, otherwise the radio settles in
    /// `Awake`.
    pub fn power_mode_changed(&mut self, on: bool)
        ensures
            on && old(self).radio_state == RadioState::StartUp && old(self).tx_pending ==> final(self).radio_state == RadioState::TxPending,
            on && old(self).radio_state == RadioState::StartUp && !old(self).tx_pending ==> final(self).radio_state == RadioState::Awake,
            !(on && old(self).radio_state == RadioState::StartUp) ==> *final(self) == *old(self),
            final(self).radio == old(self).radio,
            final(self).tx_payload == old(self).tx_payload,
            final(self).tx_payload_len == old(self).tx_payload_len,
            final(self).tx_pending == old(self).tx_pending,
            final(self).tx_client_events == old(self).tx_client_events,
            final(self).power_steps == old(self).power_steps,
    {
        if on {
            if matches!(self.radio_state, RadioState::StartUp) {
                if self.tx_pending {
                    self.radio_state = RadioState::TxPending;
                } else {
                    self.radio_state = RadioState::Awake;
                }
            }
        }
    }

    /// Power the radio up and mark the layer as starting: the core and
    /// its timer come up in the selected mode, the power client hears of
    /// the change, and the protocol steps the runtime must perform are
    /// left in `power_steps`.
    pub fn initialize(&mut self) -> (r: ReturnCode)
        ensures
            r == ReturnCode::SUCCESS,
            final(self).radio_state == RadioState::StartUp,
            final(self).radio.rfc.enabled,
            final(self).radio.rfc.rat_running,
            final(self).radio.rfc.mode == Some(RfcMode::BLE),
            final(self).radio.power_events@ == old(self).radio.power_events@.push(true),
            final(self).power_steps@ == spec_power_up_steps(),
            final(self).tx_payload == old(self).tx_payload,
            final(self).tx_payload_len == old(self).tx_payload_len,
            final(self).tx_pending == old(self).tx_pending,
            final(self).tx_client_events == old(self).tx_client_events,
            final(self).channel_params == old(self).channel_params,
            final(self).wf() == old(self).wf(),
    {
        self.radio_state = RadioState::StartUp;
        self.power_steps = self.radio.power_up();
        ReturnCode::SUCCESS
    }

    /// Whether the physical radio is powered.
    pub fn is_on(&self) -> (r: bool)
        ensures
            r == self.radio.rfc.enabled,
    {
        self.radio.rfc.enabled
    }

    /// Park the synthesizer on the configured channel; `cmdsta` is the
    /// acknowledgement word the doorbell reported. Success exactly when
    /// the submission was acknowledged.
    pub fn set_frequency(&mut self, cmdsta: u32) -> (r: ReturnCode)
        ensures
            final(self).radio.fs_cmd == Some(
                crate::radio::multimode::spec_fs_command(
                    old(self).channel_params.frequency,
                    old(self).channel_params.fract_freq,
                ),
            ),
            !old(self).radio.rfc.enabled ==> r == ReturnCode::FAIL && final(self).radio.rfc == old(self).radio.rfc,
            old(self).radio.rfc.enabled ==> (r == ReturnCode::SUCCESS <==> cmdr_result(cmdsta)
                is Ok),
            old(self).radio.rfc.enabled && !(cmdr_result(cmdsta) is Ok) ==> r == ReturnCode::FAIL,
            old(self).radio.rfc.enabled ==> final(self).radio.rfc.status == cmdsta && final(self).radio.rfc.enabled,
            old(self).radio.rfc.enabled && cmdr_result(cmdsta) is Ok ==> final(self).radio.rfc.pending_op == Some(0x0803u16),
            final(self).tx_payload == old(self).tx_payload,
            final(self).tx_payload_len == old(self).tx_payload_len,
            final(self).tx_pending == old(self).tx_pending,
            final(self).radio_state == old(self).radio_state,
            final(self).channel_params == old(self).channel_params,
            final(self).tx_client_events == old(self).tx_client_events,
            final(self).power_steps == old(self).power_steps,
            final(self).wf() == old(self).wf(),
    {
        let params = self.channel_params;
        self.radio.set_frequency(params.frequency, params.fract_freq, cmdsta)
    }
}

} // verus!
