//! Behaviour of the radio command core: size and busy rejection on
//! transmit, override table termination, command status handling, the
//! virtual radio's retry, and the channel table.

use rfmux::channels::RadioChannel;
use rfmux::radio::commands::{
    collect_overrides, cwm_rfparams, lr_rfparams, tx_20_params, tx_std_params_10, tx_std_params_2,
    tx_std_params_9, DirectCommand,
};
use rfmux::radio::multimode::{PowerStep, Radio};
use rfmux::radio::rfc::RFCore;
use rfmux::radio::status_codes::CmdrStatus;
use rfmux::returncode::ReturnCode;
use rfmux::virtual_rfcore::{RadioState, VirtualRadio};

fn powered_radio() -> Radio {
    let mut rfc = RFCore::new();
    rfc.enable();
    Radio::new(rfc)
}

#[test]
fn transmit_over_240_bytes_returns_esize_and_the_buffer() {
    let mut radio = powered_radio();
    let staging_before = radio.tx_staging.buf.clone();
    let buf = vec![0xABu8; 300];
    let (code, back) = radio.transmit(buf.clone(), 241);
    assert_eq!(code, ReturnCode::ESIZE);
    assert_eq!(back.unwrap(), buf);
    // Internal staging state is untouched.
    assert_eq!(radio.tx_staging.buf, staging_before);
    assert!(radio.tx_buf.is_none());
    assert!(radio.tx_cmd.is_none());
}

#[test]
fn transmit_at_the_ceiling_is_accepted() {
    let mut radio = powered_radio();
    let buf = vec![0x55u8; 240];
    let (code, back) = radio.transmit(buf, 240);
    assert_eq!(code, ReturnCode::SUCCESS);
    assert!(back.is_none());
    assert_eq!(radio.tx_cmd.unwrap().packet_len, 240);
}

#[test]
fn second_transmit_while_in_flight_returns_ebusy_untouched() {
    let mut radio = powered_radio();
    let first = vec![1u8, 2, 3];
    let (code, _) = radio.transmit(first, 3);
    assert_eq!(code, ReturnCode::SUCCESS);
    let staged = radio.tx_staging.buf.clone();
    let second = vec![9u8, 9];
    let (code, back) = radio.transmit(second.clone(), 2);
    assert_eq!(code, ReturnCode::EBUSY);
    // The second buffer comes back unmodified.
    assert_eq!(back.unwrap(), second);
    // The first transmission's state is untouched.
    assert_eq!(radio.tx_staging.buf, staged);
    assert_eq!(radio.tx_buf.as_ref().unwrap(), &vec![1u8, 2, 3]);
    assert_eq!(radio.tx_cmd.unwrap().packet_len, 3);
}

#[test]
fn transmit_stages_payload_and_builds_the_record() {
    let mut radio = powered_radio();
    let (code, _) = radio.transmit(vec![0xCA, 0xFE], 2);
    assert_eq!(code, ReturnCode::SUCCESS);
    assert_eq!(&radio.tx_staging.buf[0..2], &[0xCA, 0xFE]);
    assert!(radio.tx_staging.buf[2..].iter().all(|b| *b == 0));
    let cmd = radio.tx_cmd.unwrap();
    assert_eq!(cmd.command_no, 0x3801);
    assert_eq!(cmd.packet_len, 2);
    assert_eq!(cmd.start_trigger.0, 0x80);
    assert_eq!(cmd.condition.0, 0x01);
    assert_eq!(cmd.packet_conf.0, 0x18);
}

#[test]
fn tx_done_returns_the_retained_buffer() {
    let mut radio = powered_radio();
    let (code, _) = radio.transmit(vec![7u8; 10], 10);
    assert_eq!(code, ReturnCode::SUCCESS);
    let back = radio.tx_done().unwrap();
    assert_eq!(back, vec![7u8; 10]);
    assert!(radio.tx_buf.is_none());
}

#[test]
fn override_iteration_stops_at_the_first_sentinel() {
    let table = vec![0x11u32, 0x22, 0xFFFFFFFF, 0xDEAD, 0xFFFFFFFF];
    let applied = collect_overrides(&table);
    assert_eq!(applied, vec![0x11u32, 0x22, 0xFFFFFFFF]);
    // Every shipped table is terminated, and application consumes it
    // whole when the sentinel is last.
    let lr = lr_rfparams();
    assert_eq!(*lr.last().unwrap(), 0xFFFFFFFF);
    assert_eq!(collect_overrides(&lr), lr);
}

#[test]
fn setup_applies_exactly_the_terminated_prefixes() {
    let mut rfc = RFCore::new();
    rfc.enable();
    let reg = vec![0x5u32, 0xFFFFFFFF, 0x7];
    let (applied_reg, applied_std, applied_20) =
        rfc.setup(&reg, &tx_std_params_9(), &lr_rfparams(), 0x38DA);
    assert_eq!(applied_reg, vec![0x5u32, 0xFFFFFFFF]);
    assert_eq!(applied_std, tx_std_params_9());
    assert_eq!(applied_20, lr_rfparams());
}

#[test]
fn direct_commands_fail_without_power_and_decode_acknowledgements() {
    let mut rfc = RFCore::new();
    let stop = DirectCommand::new(0x0402, 0);
    assert_eq!(rfc.send_direct(&stop, 0x01), Err(CmdrStatus::Failure));
    rfc.enable();
    assert_eq!(rfc.send_direct(&stop, 0x01), Ok(()));
    assert_eq!(rfc.send_direct(&stop, 0x86), Err(CmdrStatus::SchedulingError));
    assert_eq!(rfc.send_direct(&stop, 0x4444), Err(CmdrStatus::Failure));
}

#[test]
fn wait_polls_until_a_terminal_class() {
    let mut rfc = RFCore::new();
    assert_eq!(rfc.wait(0x0000), None);
    assert_eq!(rfc.wait(0x0001), None);
    assert_eq!(rfc.wait(0x0002), None);
    assert_eq!(rfc.wait(0x3400), Some(Ok(())));
    assert_eq!(rfc.wait(0x0400), Some(Ok(())));
    assert_eq!(rfc.wait(0x3800), Some(Err(0x3800)));
    assert_eq!(rfc.wait(0x0803), Some(Err(0x0803)));
}

#[test]
fn command_status_classification() {
    let mut radio = powered_radio();
    let stop = DirectCommand::new(0x0402, 0);
    let _ = radio.rfc.send_direct(&stop, 0x3400);
    let (code, raw) = radio.get_command_status();
    assert_eq!(code, ReturnCode::SUCCESS);
    assert_eq!(raw, Some(0x3400));
    let _ = radio.rfc.send_direct(&stop, 0x3806);
    assert_eq!(radio.get_command_status().0, ReturnCode::FAIL);
    let _ = radio.rfc.send_direct(&stop, 0x0001);
    assert_eq!(radio.get_command_status().0, ReturnCode::SUCCESS);
    assert!(radio.busy());
}

#[test]
fn power_up_fixes_the_protocol_order() {
    let mut radio = Radio::new(RFCore::new());
    let steps = radio.power_up();
    assert_eq!(
        steps,
        vec![
            PowerStep::RequestXosc,
            PowerStep::EnableCore,
            PowerStep::StartRat,
            PowerStep::ConfirmXosc,
            PowerStep::ApplyPatches,
            PowerStep::Setup,
            PowerStep::FrequencySelect,
        ]
    );
    assert!(radio.rfc.enabled);
    assert!(radio.rfc.rat_running);
    radio.power_down();
    assert!(!radio.rfc.enabled);
}

#[test]
fn rx_ok_copies_the_frame_out_of_the_ring_entry() {
    let mut radio = powered_radio();
    let entry = vec![3u8, 0xAA, 0xBB, 0xCC, 0x99];
    let (payload, frame_len, crc_valid) = radio.rx_ok(&entry);
    assert_eq!(frame_len, 3);
    assert_eq!(payload, vec![0xAA, 0xBB, 0xCC]);
    assert!(crc_valid);
}

#[test]
fn skyworks_amplifier_caps_transmit_power() {
    let mut radio = powered_radio();
    radio.pa_type = rfmux::hil::rfcore::PaType::Skyworks;
    let code = radio.set_tx_power(0x38DA, 0x01);
    assert_eq!(code, ReturnCode::SUCCESS);
    assert_eq!(radio.get_tx_power(), 0x3248);
    let code = radio.set_tx_power(0x12C9, 0x01);
    assert_eq!(code, ReturnCode::SUCCESS);
    assert_eq!(radio.get_tx_power(), 0x12C9);
}

#[test]
fn virtual_radio_rejects_busy_then_oversize() {
    let mut vr = VirtualRadio::new(powered_radio());
    // Make the physical radio busy so the frame stays deferred.
    let (code, _) = vr.radio.transmit(vec![0u8; 4], 4);
    assert_eq!(code, ReturnCode::SUCCESS);
    vr.tx_payload = Some(vec![1u8, 2]);
    vr.tx_payload_len = 2;
    let frame = vec![5u8; 8];
    let (code, back) = vr.transmit(frame.clone(), 8);
    assert_eq!(code, ReturnCode::EBUSY);
    assert_eq!(back.unwrap(), frame);
    vr.tx_payload = None;
    let big = vec![0u8; 300];
    let (code, back) = vr.transmit(big.clone(), 241);
    assert_eq!(code, ReturnCode::ESIZE);
    assert_eq!(back.unwrap(), big);
}

#[test]
fn virtual_radio_retries_the_same_buffer_once_on_busy() {
    let mut vr = VirtualRadio::new(powered_radio());
    vr.radio_state = RadioState::TxPending;
    vr.tx_payload_len = 3;
    // The radio is idle now, so the busy retry resubmits the buffer.
    let buf = vec![0xA1u8, 0xA2, 0xA3];
    vr.transmit_event(buf.clone(), ReturnCode::EBUSY);
    assert_eq!(vr.radio.tx_buf.as_ref().unwrap(), &buf);
    assert_eq!(&vr.radio.tx_staging.buf[0..3], &buf[..]);
    assert!(vr.tx_client_events.is_empty());
}

#[test]
fn virtual_radio_success_reaches_the_client() {
    let mut vr = VirtualRadio::new(powered_radio());
    vr.radio_state = RadioState::TxPending;
    vr.tx_payload_len = 0;
    let buf = vec![0x42u8];
    vr.transmit_event(buf.clone(), ReturnCode::SUCCESS);
    assert_eq!(vr.radio_state, RadioState::Awake);
    assert_eq!(vr.tx_client_events.len(), 1);
    assert_eq!(vr.tx_client_events[0].0, buf);
    assert_eq!(vr.tx_client_events[0].1, ReturnCode::SUCCESS);
}

#[test]
fn power_mode_change_wakes_a_deferred_transmit() {
    let mut vr = VirtualRadio::new(Radio::new(RFCore::new()));
    let (code, back) = vr.transmit(vec![8u8; 5], 5);
    assert_eq!(code, ReturnCode::SUCCESS);
    assert!(back.is_none());
    assert_eq!(vr.radio_state, RadioState::StartUp);
    assert!(vr.tx_pending);
    vr.power_mode_changed(true);
    assert_eq!(vr.radio_state, RadioState::TxPending);
    let mut idle = VirtualRadio::new(Radio::new(RFCore::new()));
    idle.radio_state = RadioState::StartUp;
    idle.power_mode_changed(true);
    assert_eq!(idle.radio_state, RadioState::Awake);
}

#[test]
fn channel_table_maps_channels_to_synthesizer_words() {
    assert_eq!(RadioChannel::Channel0.get_channel().frequency, 0x038A);
    assert_eq!(RadioChannel::Channel0.get_channel().fract_freq, 0x0000);
    assert_eq!(RadioChannel::Channel13.get_channel().fract_freq, 0x8000);
    assert_eq!(RadioChannel::Channel26.get_channel().frequency, 0x038B);
    assert_eq!(RadioChannel::Channel26.get_channel().fract_freq, 0x0000);
    assert_eq!(RadioChannel::Channel51.get_channel().frequency, 0x038B);
    assert_eq!(RadioChannel::Channel51.get_channel().fract_freq, 0xF5CD);
    let devs = rfmux::channels::freq_deviations();
    assert_eq!(devs.len(), 26);
    assert_eq!(devs[13], 0x8000);
    assert_eq!(devs[25], 0xF5CD);
}

#[test]
fn run_tests_selects_power_and_records_setup() {
    let mut radio = Radio::new(RFCore::new());
    assert_eq!(radio.run_tests(0, 2), Some(rfmux::radio::multimode::TestType::Tx));
    assert_eq!(radio.get_tx_power(), 0x12C9);
    assert!(radio.setup_cmd.is_some());
    assert!(radio.fs_cmd.is_some());
    assert_eq!(radio.run_tests(1, 9), Some(rfmux::radio::multimode::TestType::Rx));
    assert_eq!(radio.get_tx_power(), 0x38DA);
    // Level ten keeps the configured power code.
    assert_eq!(radio.run_tests(2, 10), Some(rfmux::radio::multimode::TestType::Cwm));
    assert_eq!(radio.get_tx_power(), 0x38DA);
    // An unknown test number does nothing.
    let before_power = radio.get_tx_power();
    assert_eq!(radio.run_tests(9, 2), None);
    assert_eq!(radio.get_tx_power(), before_power);
}

#[test]
fn test_transmit_carries_a_sequential_payload() {
    let radio = powered_radio();
    let (cmd, payload) = radio.test_radio_tx();
    assert_eq!(cmd.command_no, 0x3801);
    assert_eq!(cmd.packet_len, 0x14);
    assert_eq!(payload.len(), 32);
    for (i, b) in payload.iter().enumerate() {
        assert_eq!(*b as usize, i);
    }
    let cwm = radio.test_radio_cwm();
    assert_eq!(cwm.command_no, 0x808);
    assert_eq!(cwm.tx_word, 0xAAAA);
    assert_eq!(cwm.sync_word, 0x930B51DE);
}

#[test]
fn transmit_record_serializes_to_six_words() {
    let mut radio = powered_radio();
    let (code, _) = radio.transmit(vec![0x11u8; 20], 20);
    assert_eq!(code, ReturnCode::SUCCESS);
    let words = radio.tx_cmd.unwrap().to_words();
    // Word zero: command number low, status high.
    assert_eq!(words[0], 0x00003801);
    assert_eq!(words[1], 0);
    assert_eq!(words[2], 0);
    // Word three: trigger 0x80, condition 0x01, packet configuration
    // 0x18, payload length 20.
    assert_eq!(words[3], 0x14180180);
    assert_eq!(words[4], 0);
    assert_eq!(words[5], 0);
}

#[test]
fn frequency_select_record_serializes_exactly() {
    let mut radio = powered_radio();
    radio.set_radio_fs();
    let words = radio.fs_cmd.unwrap().to_words();
    assert_eq!(words.len(), 6);
    assert_eq!(words[0], 0x00000803);
    // Word three carries the centre frequency in its upper half.
    assert_eq!(words[3], 0x038B_0100);
    assert_eq!(words[4], 0);
    assert_eq!(words[5], 0);
}

#[test]
fn reset_powers_down_and_up_again() {
    let mut radio = powered_radio();
    assert!(radio.is_on());
    radio.power_down();
    assert!(!radio.is_on());
    let steps = radio.reset();
    assert_eq!(steps.len(), 7);
    assert!(radio.is_on());
    assert_eq!(radio.config_commit(), ReturnCode::SUCCESS);
    assert_eq!(radio.get_radio_status(), 0);
    assert_eq!(radio.stop(0x01), ReturnCode::SUCCESS);
    let mut cold = Radio::new(RFCore::new());
    assert_eq!(cold.stop(0x01), ReturnCode::FAIL);
}

#[test]
fn power_client_hears_every_transition() {
    let mut radio = Radio::new(RFCore::new());
    assert!(radio.power_events.is_empty());
    let _ = radio.power_up();
    assert_eq!(radio.power_events, vec![true]);
    radio.power_down();
    assert_eq!(radio.power_events, vec![true, false]);
    let _ = radio.reset();
    assert_eq!(radio.power_events, vec![true, false, false, true]);
    // A scheduled power-down is notified when the completion runs it.
    radio.schedule_powerdown = true;
    let _ = radio.tx_done();
    assert_eq!(radio.power_events, vec![true, false, false, true, false]);
}

#[test]
fn run_tests_applies_the_selected_tables() {
    let mut radio = Radio::new(RFCore::new());
    assert_eq!(radio.run_tests(2, 2), Some(rfmux::radio::multimode::TestType::Cwm));
    let (reg, std, t20) = radio.applied_overrides.clone().unwrap();
    assert_eq!(reg, cwm_rfparams());
    assert_eq!(std, tx_std_params_2());
    assert_eq!(t20, tx_20_params());
    // Level ten keeps the configured power code and picks its table.
    assert_eq!(radio.run_tests(0, 10), Some(rfmux::radio::multimode::TestType::Tx));
    let (reg, std, _) = radio.applied_overrides.clone().unwrap();
    assert_eq!(reg, lr_rfparams());
    assert_eq!(std, tx_std_params_10());
    // The setup record is pinned in full.
    let c = radio.setup_cmd.unwrap();
    assert_eq!(c.command_no, 0x3807);
    assert_eq!(c.modulation.0, 0x0321);
    assert_eq!(c.symbol_rate.0, 0x0080000F);
    assert_eq!(c.format_conf.0, 0x00A0);
    assert_eq!(c.tx_power, radio.get_tx_power());
}

#[test]
fn receive_arms_the_exact_record() {
    let mut radio = powered_radio();
    assert_eq!(radio.receive(), ReturnCode::SUCCESS);
    let cmd = radio.rx_cmd.unwrap();
    assert_eq!(cmd.command_no, 0x3802);
    assert_eq!(cmd.packet_conf.0, 0x18);
    assert_eq!(cmd.rx_config.0, 0x8B);
    assert_eq!(cmd.max_packet_len, 0xFF);
    assert_eq!(cmd.end_trigger, 0x1);
}

#[test]
fn initialize_hands_the_runtime_the_protocol() {
    let mut vr = VirtualRadio::new(Radio::new(RFCore::new()));
    assert_eq!(vr.initialize(), ReturnCode::SUCCESS);
    assert_eq!(vr.radio_state, RadioState::StartUp);
    assert!(vr.radio.rfc.enabled);
    assert!(vr.radio.rfc.rat_running);
    assert_eq!(vr.power_steps.len(), 7);
    assert_eq!(vr.power_steps[0], PowerStep::RequestXosc);
    assert_eq!(vr.power_steps[6], PowerStep::FrequencySelect);
}

#[test]
fn virtual_set_frequency_reports_the_acknowledgement() {
    let mut vr = VirtualRadio::new(Radio::new(RFCore::new()));
    // Unpowered: the dispatch fails outright.
    assert_eq!(vr.set_frequency(0x01), ReturnCode::FAIL);
    let _ = vr.initialize();
    assert_eq!(vr.set_frequency(0x01), ReturnCode::SUCCESS);
    assert_eq!(vr.radio.rfc.pending_op, Some(0x0803));
    assert_eq!(vr.set_frequency(0x86), ReturnCode::FAIL);
    assert_eq!(vr.radio.rfc.status, 0x86);
}

#[test]
fn stop_records_the_acknowledgement_word() {
    let mut radio = powered_radio();
    assert_eq!(radio.stop(0x86), ReturnCode::FAIL);
    assert_eq!(radio.rfc.status, 0x86);
    assert_eq!(radio.send_kill_command(0x01), ReturnCode::SUCCESS);
    assert_eq!(radio.rfc.status, 0x01);
}
