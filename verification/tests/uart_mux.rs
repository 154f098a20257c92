//! End-to-end behaviour of the UART request multiplexer: intake,
//! shortest-remaining-first dispatch, fan-out, and completion delivery.

use rfmux::hil::uart::{Client, Parameters, Parity, StopBits, UartPeripheral, Width};
use rfmux::ikc::{DriverState, RxRequest, TxRequest};
use rfmux::returncode::ReturnCode;
use rfmux::uart::{
    dispatch_next_tx_request, handle_irq, submit_receive, submit_transmit, AppRequests, Uart,
    UartDriver,
};
use rfmux::uart_test::{State, TestClient};

fn fresh_driver(num_clients: usize) -> (UartDriver, Vec<Client>) {
    let mut slots: Vec<Option<RxRequest>> = Vec::new();
    for _ in 0..num_clients {
        slots.push(None);
    }
    let uart = Uart::new(
        UartPeripheral::new(),
        Some(slots),
        AppRequests::new_with_default_space(AppRequests::space()),
    );
    let driver = UartDriver::new(vec![uart]);
    let mut clients: Vec<Client> = Vec::new();
    for _ in 0..num_clients {
        clients.push(Client::new());
    }
    (driver, clients)
}

#[test]
fn shortest_remaining_request_dispatched_first() {
    let (mut driver, mut clients) = fresh_driver(3);
    // Remaining lengths [5, 2, 8] at indices [0, 1, 2].
    submit_receive(0, &mut driver, &mut clients, 0, RxRequest::new_with_mut_ref(vec![0u8; 5]));
    submit_receive(0, &mut driver, &mut clients, 1, RxRequest::new_with_mut_ref(vec![0u8; 2]));
    submit_receive(0, &mut driver, &mut clients, 2, RxRequest::new_with_mut_ref(vec![0u8; 8]));
    let dispatched = driver.uart[0].dispatch_shortest_rx_request();
    assert!(dispatched);
    let bound = driver.uart[0].uart.rx.as_ref().unwrap();
    assert_eq!(bound.client_id, 1);
    assert_eq!(bound.requested, 2);
}

#[test]
fn shortest_remaining_tie_goes_to_lower_index() {
    let (mut driver, mut clients) = fresh_driver(2);
    submit_receive(0, &mut driver, &mut clients, 0, RxRequest::new_with_mut_ref(vec![0u8; 3]));
    submit_receive(0, &mut driver, &mut clients, 1, RxRequest::new_with_mut_ref(vec![0u8; 3]));
    let dispatched = driver.uart[0].dispatch_shortest_rx_request();
    assert!(dispatched);
    assert_eq!(driver.uart[0].uart.rx.as_ref().unwrap().client_id, 0);
}

#[test]
fn fanout_copies_every_byte_in_order() {
    let (mut driver, mut clients) = fresh_driver(2);
    submit_receive(0, &mut driver, &mut clients, 0, RxRequest::new_with_mut_ref(vec![0u8; 10]));
    submit_receive(0, &mut driver, &mut clients, 1, RxRequest::new_with_mut_ref(vec![0u8; 6]));
    let mut completed = RxRequest::new_with_mut_ref(vec![0u8; 4]);
    completed.push(0xDE);
    completed.push(0xAD);
    completed.push(0xBE);
    completed.push(0xEF);
    let completed = driver.uart[0].mux_completed_tx_to_others(completed);
    // The completing request itself is unchanged.
    assert_eq!(completed.items_pushed(), 4);
    let slots = driver.uart[0].rx_requests.as_ref().unwrap();
    for slot in slots.iter() {
        let r = slot.as_ref().unwrap();
        assert_eq!(r.items_pushed(), 4);
        match &r.buf {
            rfmux::ikc::RxBuf::MUT(b) => {
                assert_eq!(&b[0..4], &[0xDE, 0xAD, 0xBE, 0xEF]);
            }
            _ => panic!("listener lost its buffer"),
        }
    }
}

#[test]
fn fanout_stops_at_listener_capacity() {
    let (mut driver, mut clients) = fresh_driver(1);
    submit_receive(0, &mut driver, &mut clients, 0, RxRequest::new_with_mut_ref(vec![0u8; 2]));
    let mut completed = RxRequest::new_with_mut_ref(vec![0u8; 3]);
    completed.push(1);
    completed.push(2);
    completed.push(3);
    let _ = driver.uart[0].mux_completed_tx_to_others(completed);
    let slots = driver.uart[0].rx_requests.as_ref().unwrap();
    let r = slots[0].as_ref().unwrap();
    assert_eq!(r.items_pushed(), 2);
    match &r.buf {
        rfmux::ikc::RxBuf::MUT(b) => assert_eq!(&b[..], &[1, 2]),
        _ => panic!("listener lost its buffer"),
    }
}

#[test]
fn transmit_buffer_round_trip_returns_same_bytes_to_same_client() {
    let (mut driver, mut clients) = fresh_driver(2);
    let payload = vec![b'h', b'e', b'l', b'l', b'o'];
    let request = TxRequest::new_with_const_ref(payload.clone());
    submit_transmit(0, &mut driver, &mut clients, 1, request);
    // Bound immediately: transmit direction was idle.
    assert!(driver.uart[0].uart.tx.is_some());
    assert_eq!(driver.uart[0].uart.tx.as_ref().unwrap().client_id, 1);
    // Simulate a full drain and the completion interrupt.
    driver.uart[0].uart.hw_drain_transmit();
    handle_irq(0, &mut driver, &mut clients);
    assert_eq!(clients[1].completed_tx.len(), 1);
    assert_eq!(clients[0].completed_tx.len(), 0);
    match &clients[1].completed_tx[0].buf {
        rfmux::ikc::TxBuf::CONST(b) => assert_eq!(b, &payload),
        _ => panic!("buffer came back in the wrong form"),
    }
    // The peripheral is idle again and marked so.
    assert!(driver.uart[0].uart.tx.is_none());
    assert_eq!(driver.uart[0].state.tx, DriverState::IDLE);
}

#[test]
fn at_most_one_transmit_bound_while_another_waits() {
    let (mut driver, mut clients) = fresh_driver(2);
    submit_transmit(0, &mut driver, &mut clients, 0, TxRequest::new_with_const_ref(vec![1, 2]));
    submit_transmit(0, &mut driver, &mut clients, 1, TxRequest::new_with_const_ref(vec![3]));
    // The second request waits in its client slot; exactly one is bound.
    assert_eq!(driver.uart[0].uart.tx.as_ref().unwrap().client_id, 0);
    assert!(clients[1].tx_request.is_some());
    // After the first completes, the second is dispatched in index order.
    driver.uart[0].uart.hw_drain_transmit();
    handle_irq(0, &mut driver, &mut clients);
    assert_eq!(driver.uart[0].uart.tx.as_ref().unwrap().client_id, 1);
    assert_eq!(driver.uart[0].state.tx, DriverState::BUSY);
    assert_eq!(clients[0].completed_tx.len(), 1);
}

#[test]
fn end_to_end_two_listeners_four_bytes() {
    let (mut driver, mut clients) = fresh_driver(2);
    // Client A wants 10 bytes, client B wants 4.
    submit_receive(0, &mut driver, &mut clients, 0, RxRequest::new_with_mut_ref(vec![0u8; 10]));
    submit_receive(0, &mut driver, &mut clients, 1, RxRequest::new_with_mut_ref(vec![0u8; 4]));
    handle_irq(0, &mut driver, &mut clients);
    // Shortest first: B's request is bound to hardware.
    assert_eq!(driver.uart[0].uart.rx.as_ref().unwrap().client_id, 1);
    // Hardware delivers four bytes.
    for b in [1u8, 2, 3, 4] {
        assert!(driver.uart[0].uart.hw_receive_byte(b));
    }
    handle_irq(0, &mut driver, &mut clients);
    // B's request completed full and came back first (and alone).
    assert_eq!(clients[1].completed_rx.len(), 1);
    let b_req = &clients[1].completed_rx[0];
    assert_eq!(b_req.items_pushed(), 4);
    match &b_req.buf {
        rfmux::ikc::RxBuf::MUT(b) => assert_eq!(&b[..], &[1, 2, 3, 4]),
        _ => panic!("buffer came back in the wrong form"),
    }
    assert_eq!(clients[0].completed_rx.len(), 0);
    // A's request saw the same four bytes through fan-out and stays in
    // the multiplexer's care: not completed, not returned, and — being
    // now the stashed request with the least remaining bytes — bound to
    // the hardware by the re-dispatch step of the same round.
    let a_req = driver.uart[0].uart.rx.as_ref().unwrap();
    assert_eq!(a_req.client_id, 0);
    assert_eq!(a_req.items_pushed(), 4);
    match &a_req.buf {
        rfmux::ikc::RxBuf::MUT(b) => assert_eq!(&b[0..4], &[1, 2, 3, 4]),
        _ => panic!("listener lost its buffer"),
    }
    let slots = driver.uart[0].rx_requests.as_ref().unwrap();
    assert!(slots[0].is_none());
    assert!(slots[1].is_none());
}

#[test]
fn configure_rejects_what_hardware_cannot_realise() {
    let mut uart = UartPeripheral::new();
    let good = Parameters {
        baud_rate: 115200,
        width: Width::Eight,
        parity: Parity::NONE,
        stop_bits: StopBits::One,
        hw_flow_control: false,
    };
    assert_eq!(uart.configure(good), ReturnCode::SUCCESS);
    let parity = Parameters { parity: Parity::EVEN, ..good };
    assert_eq!(uart.configure(parity), ReturnCode::ENOSUPPORT);
    let stop = Parameters { stop_bits: StopBits::Two, ..good };
    assert_eq!(uart.configure(stop), ReturnCode::ENOSUPPORT);
    let flow = Parameters { hw_flow_control: true, ..good };
    assert_eq!(uart.configure(flow), ReturnCode::ENOSUPPORT);
}

#[test]
fn peripheral_rejects_zero_length_and_busy() {
    let mut uart = UartPeripheral::new();
    let empty = TxRequest::new_with_const_ref(vec![]);
    let (code, back) = uart.transmit_buffer(empty);
    assert_eq!(code, ReturnCode::ESIZE);
    assert!(back.is_some());
    let first = TxRequest::new_with_const_ref(vec![9]);
    let (code, back) = uart.transmit_buffer(first);
    assert_eq!(code, ReturnCode::SUCCESS);
    assert!(back.is_none());
    let second = TxRequest::new_with_const_ref(vec![7]);
    let (code, back) = uart.transmit_buffer(second);
    assert_eq!(code, ReturnCode::EBUSY);
    assert!(back.is_some());
    // The in-flight transmission is untouched.
    assert_eq!(uart.tx.as_ref().unwrap().requested, 1);
}

#[test]
fn no_transmit_dispatched_when_no_client_has_one() {
    let (mut driver, mut clients) = fresh_driver(2);
    assert!(!dispatch_next_tx_request(0, &mut driver, &mut clients));
    assert!(driver.uart[0].uart.tx.is_none());
}

#[test]
fn receive_abort_is_not_wired() {
    let mut uart = UartPeripheral::new();
    assert_eq!(uart.receive_abort(), ReturnCode::FAIL);
    assert_eq!(Uart::new(
        UartPeripheral::new(),
        None,
        AppRequests::new_with_default_space(AppRequests::space()),
    ).receive(), ReturnCode::ENOSUPPORT);
}

#[test]
fn echo_appends_a_line_feed_after_carriage_return() {
    let echo = rfmux::uart_echo::UartEcho::new(vec![0u8; 4], vec![0u8; 2]);
    let input = vec![b'a', b'\r', b'b'];
    let out = echo.received_buffer(&input, 3);
    assert_eq!(out, vec![b'a', b'\r', b'\n', b'b']);
    let out = echo.received_buffer(&input, 2);
    assert_eq!(out, vec![b'a', b'\r', b'\n']);
    let mut echo = echo;
    let req = echo.initialize().unwrap();
    assert_eq!(req.requested, 1);
}

#[test]
fn scripted_client_walks_greeting_invitation_echo() {
    let mut tc = TestClient::new(TestClient::space());
    assert!(tc.has_tx_request());
    let first = tc.get_tx_request().unwrap();
    match &first.buf {
        rfmux::ikc::TxBuf::CONST(b) => assert_eq!(&b[..], b"Hello, World!\r\n"),
        _ => panic!("greeting lost"),
    }
    tc.tx_request_complete(first);
    assert_eq!(tc.state, State::SECOND_MSG);
    let second = tc.get_tx_request().unwrap();
    match &second.buf {
        rfmux::ikc::TxBuf::CONST(b) => assert_eq!(&b[..], b"You can start typing\r\n"),
        _ => panic!("invitation lost"),
    }
    tc.tx_request_complete(second);
    assert_eq!(tc.state, State::ECHO);
}

#[test]
fn userspace_command_convention() {
    let (mut driver, _clients) = fresh_driver(1);
    let mut app = rfmux::uart::App::new();
    // allow 1 shares the write buffer; unknown numbers are unsupported.
    assert_eq!(driver.allow(&mut app, 1, vec![0xA0, 0xA1, 0xA2]), ReturnCode::SUCCESS);
    assert_eq!(driver.allow(&mut app, 7, vec![]), ReturnCode::ENOSUPPORT);
    // command 0 is the presence check; command 1 transmits the shared
    // bytes; command 3 aborts a receive (refused by this hardware but
    // reported as handled); anything past 3 is unsupported.
    assert_eq!(driver.command(0, 0, 0, &mut app, 0), ReturnCode::SUCCESS);
    assert_eq!(driver.command(1, 0, 3, &mut app, 0), ReturnCode::SUCCESS);
    let staged = driver.uart[0].uart.tx.as_ref().unwrap();
    assert_eq!(staged.requested, 3);
    match &staged.buf {
        rfmux::ikc::TxBuf::MUT(b) => assert_eq!(&b[0..3], &[0xA0, 0xA1, 0xA2]),
        _ => panic!("staging buffer lost"),
    }
    assert_eq!(driver.command(3, 0, 0, &mut app, 0), ReturnCode::SUCCESS);
    assert_eq!(driver.command(9, 0, 0, &mut app, 0), ReturnCode::ENOSUPPORT);
}
