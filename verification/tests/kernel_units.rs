//! Unit behaviour of the leaf components: request descriptors, event
//! flags, the data-entry queue layout, status codes, and the processor
//! context flag.

use rfmux::events::Event;
use rfmux::fpu::Fpca;
use rfmux::ikc::{RxRequest, TxBuf, TxRequest};
use rfmux::radio::queue::DataQueue;
use rfmux::radio::status_codes::{CmdrStatus, RfcOpStatus, RfcPropStatus};
use rfmux::returncode::ReturnCode;
use rfmux::hil::rfcore::{PowerMode, RadioOperation};
use rfmux::virtual_rfcore::{App, Expiration};

#[test]
fn driver_presence_check() {
    assert_eq!(rfmux::driver_check(), ReturnCode::SUCCESS);
}

#[test]
fn tx_request_const_ref_pops_in_order() {
    let mut r = TxRequest::new_with_const_ref(vec![10, 20, 30]);
    assert_eq!(r.requested_length(), 3);
    assert_eq!(r.remaining_request(), 3);
    assert!(r.has_some());
    assert!(!r.request_completed());
    assert_eq!(r.pop(), Some(10));
    assert_eq!(r.pop(), Some(20));
    assert_eq!(r.pop(), Some(30));
    assert!(!r.has_some());
    assert!(r.request_completed());
}

#[test]
fn tx_request_push_grows_fill_and_size() {
    let mut r = TxRequest::new_with_mut_ref(vec![0u8; 4]);
    assert_eq!(r.room_available(), 4);
    assert!(r.has_room());
    r.push(0xAB);
    r.push(0xCD);
    assert_eq!(r.requested_length(), 2);
    assert_eq!(r.room_available(), 2);
    assert_eq!(r.pop(), Some(0xAB));
    assert_eq!(r.pop(), Some(0xCD));
}

#[test]
fn tx_request_set_request_len_caps_at_capacity() {
    let mut r = TxRequest::new_with_const_ref(vec![0u8; 8]);
    r.set_request_len(5);
    assert_eq!(r.requested_length(), 5);
    r.set_request_len(100);
    assert_eq!(r.requested_length(), 8);
}

#[test]
fn tx_request_reset_restores_a_const_request() {
    let mut r = TxRequest::new_with_const_ref(vec![1, 2]);
    let _ = r.pop();
    let _ = r.pop();
    assert!(r.request_completed());
    r.reset();
    assert!(!r.request_completed());
    assert_eq!(r.remaining_request(), 2);
}

#[test]
fn copy_from_app_slice_stages_the_undrained_part() {
    let mut staging = TxRequest::new_with_mut_ref(vec![0u8; 4]);
    let mut from_app = TxRequest::new();
    from_app.set_with_app_slice(vec![1, 2, 3, 4, 5, 6]);
    staging.copy_from_app_slice(&mut from_app);
    // Four of six bytes fit; the source cursor advanced past them.
    assert_eq!(staging.requested_length(), 4);
    assert!(staging.has_some());
    assert_eq!(staging.pop(), Some(1));
    assert_eq!(staging.pop(), Some(2));
    assert_eq!(staging.pop(), Some(3));
    assert_eq!(staging.pop(), Some(4));
    assert_eq!(from_app.remaining_request(), 2);
    // The second staging round carries the rest.
    let mut second = TxRequest::new_with_mut_ref(vec![0u8; 4]);
    second.copy_from_app_slice(&mut from_app);
    assert_eq!(second.requested_length(), 2);
    assert_eq!(second.pop(), Some(5));
    assert_eq!(second.pop(), Some(6));
    assert_eq!(from_app.remaining_request(), 0);
}

#[test]
fn tx_buf_kinds_control_room() {
    let const_req = TxRequest::new_with_ref_set_len(TxBuf::CONST(vec![0u8; 3]), 3);
    assert!(!const_req.has_room());
    assert_eq!(const_req.room_available(), 0);
    let none_req = TxRequest::new();
    assert!(!none_req.has_room());
    assert_eq!(none_req.requested_length(), 0);
}

#[test]
fn rx_request_fills_and_completes() {
    let mut r = RxRequest::new_with_mut_ref(vec![0u8; 3]);
    assert_eq!(r.request_remaining(), 3);
    assert!(r.has_room());
    r.push(7);
    r.push(8);
    assert_eq!(r.items_pushed(), 2);
    assert!(!r.request_completed());
    r.push(9);
    assert!(r.request_completed());
    assert!(!r.has_room());
    assert_eq!(r.pop(), Some(7));
    assert_eq!(r.pop(), Some(8));
    assert_eq!(r.pop(), Some(9));
    let mut fresh = RxRequest::new();
    fresh.set_buf(vec![0u8; 2]);
    assert_eq!(fresh.request_remaining(), 2);
    fresh.set_requested_len();
    assert!(fresh.request_completed());
    fresh.reset();
    assert_eq!(fresh.request_remaining(), 2);
}

#[test]
fn event_flags_set_clear_and_drain_lowest_first() {
    let mut e = Event { flags: 0 };
    assert!(!e.has_event());
    assert_eq!(e.next_pending(), None);
    e.set_event_flag(5);
    e.set_event_flag(3);
    e.set_event_flag(63);
    assert!(e.has_event());
    assert_eq!(e.flags, (1 << 5) | (1 << 3) | (1 << 63));
    assert_eq!(e.next_pending(), Some(3));
    e.clear_event_flag(3);
    assert_eq!(e.next_pending(), Some(5));
    e.clear_event_flag(5);
    assert_eq!(e.next_pending(), Some(63));
    // Clearing leaves every other bit alone.
    e.set_event_flag(2);
    e.clear_event_flag(63);
    assert_eq!(e.flags, 1 << 2);
}

#[test]
fn queue_layout_chains_entries_into_a_ring() {
    let mut q = DataQueue::new(0, 0);
    // The receive ring: 600 bytes, two entries of 257 bytes of payload.
    let entries = q.define_queue(600, 2, 257).unwrap();
    assert_eq!(entries.len(), 2);
    // Stride: 8-byte header + 257 payload + 3 bytes of padding = 268.
    assert_eq!(entries[0].0, 0);
    assert_eq!(entries[1].0, 268);
    assert_eq!(entries[0].1.p_next_entry, 268);
    // The last entry links back to the first.
    assert_eq!(entries[1].1.p_next_entry, 0);
    assert_eq!(entries[0].1.length, 257);
    assert_eq!(entries[0].1.config.len_sz, 1);
    assert_eq!(entries[0].1.config.irq_intv, 4);
    // A buffer too short for the ring is refused.
    let mut q2 = DataQueue::new(0, 0);
    assert!(q2.define_queue(100, 2, 257).is_none());
}

#[test]
fn status_codes_round_trip_and_decode() {
    assert_eq!(CmdrStatus::from_u32(0x01), Some(CmdrStatus::Done));
    assert_eq!(CmdrStatus::from_u32(0x86), Some(CmdrStatus::SchedulingError));
    assert_eq!(CmdrStatus::from_u32(0x1234), None);
    assert_eq!(CmdrStatus::SchedulingError.code(), 0x86);
    assert_eq!(RfcOpStatus::DoneOk.code(), 0x0400);
    assert_eq!(RfcOpStatus::ErrorNoRx.code(), 0x080C);
    assert_eq!(RfcPropStatus::PropDoneOk.code(), 0x3400);
    assert_eq!(RfcPropStatus::PropErrorTxUnf.code(), 0x3806);
}

#[test]
fn operation_and_power_mode_indices() {
    assert_eq!(RadioOperation::Enable.get_operation_index(), 0);
    assert_eq!(RadioOperation::Tx.get_operation_index(), 1);
    assert_eq!(RadioOperation::Rx.get_operation_index(), 2);
    assert_eq!(RadioOperation::Abort.get_operation_index(), 6);
    assert_eq!(PowerMode::Active.get_power_mode_index(), 0);
    assert_eq!(PowerMode::DeepSleep.get_power_mode_index(), 2);
}

#[test]
fn fpu_context_flag() {
    assert!(Fpca::Active.is_active());
    assert!(!Fpca::Active.is_inactive());
    assert!(Fpca::Inactive.is_inactive());
}

#[test]
fn app_nonce_follows_xorshift() {
    let mut app = App::new();
    assert_eq!(app.random_nonce, 0xdeadbeef);
    let first = app.random_nonce();
    assert_eq!(first, 0x477d20b7);
    assert_eq!(app.random_nonce, first);
}

#[test]
fn next_alarm_is_interval_plus_jitter() {
    let mut app = App::new();
    // The first nonce modulo ten decides the jitter; with a 1000 Hz
    // timer the period comes out in milliseconds.
    app.set_next_alarm(100, 1000);
    assert_eq!(app.alarm_data.t0, 100);
    let jitter = 0x477d20b7u32 % 10;
    match app.alarm_data.expiration {
        Expiration::Abs(t) => assert_eq!(t, 100 + 200 + jitter),
        Expiration::Disabled => panic!("alarm was not armed"),
    }
}
