//! UART hardware-interface layer: configuration parameters, the
//! per-direction peripheral state consumed by the multiplexer, the
//! peripheral itself modelled as an owned state machine, and the client
//! slot through which kernel subsystems hand requests in and take
//! completions out.
//!
//! The physical byte pump (FIFO reads and writes from interrupt context)
//! stays outside the crate; the surrounding runtime reports its progress
//! through `hw_drain_transmit` and `hw_receive_byte`, and the multiplexer
//! consumes completions through `handle_interrupt`.

use crate::ikc::{DriverState, RxRequest, TxRequest};
use crate::returncode::ReturnCode;
use vstd::prelude::*;

verus! {

/// Data bits per frame the hardware can be asked for.
#[derive(Copy, Clone, Debug, PartialEq, Eq, Structural)]
pub enum Width {
    Six,
    Seven,
    Eight,
}

/// Parity setting; the hardware realises only `NONE`.
#[allow(non_camel_case_types)]
#[derive(Copy, Clone, Debug, PartialEq, Eq, Structural)]
pub enum Parity {
    NONE,
    ODD,
    EVEN,
}

/// Stop-bit count; the hardware realises only `One`.
#[derive(Copy, Clone, Debug, PartialEq, Eq, Structural)]
pub enum StopBits {
    One,
    Two,
}

/// A full line configuration as requested by a capsule.
#[derive(Copy, Clone, Debug, PartialEq, Eq, Structural)]
pub struct Parameters {
    pub baud_rate: u32,
    pub width: Width,
    pub parity: Parity,
    pub stop_bits: StopBits,
    pub hw_flow_control: bool,
}

/// Whether a parameter combination can be realised by this UART: parity
/// and extra stop bits are not wired, and neither is hardware flow
/// control.
pub open spec fn supported_parameters(params: Parameters) -> bool {
    &&& params.stop_bits == StopBits::One
    &&& params.parity == Parity::NONE
    &&& !params.hw_flow_control
}

/// The line configuration a freshly powered UART starts with:
/// 115200 baud, eight data bits, no parity, one stop bit, no flow
/// control.
pub open spec fn spec_default_params() -> Parameters {
    Parameters {
        baud_rate: 115200,
        width: Width::Eight,
        parity: Parity::NONE,
        stop_bits: StopBits::One,
        hw_flow_control: false,
    }
}

/// The per-direction snapshot the multiplexer keeps of the peripheral:
/// whether a transmit and whether a receive operation is currently bound
/// to the hardware.
#[derive(Copy, Clone, Debug, PartialEq, Eq, Structural)]
pub struct PeripheralState {
    pub tx: DriverState,
    pub rx: DriverState,
}

impl PeripheralState {
    /// Both directions idle.
    pub fn new() -> (r: PeripheralState)
        ensures
            r.tx == DriverState::IDLE,
            r.rx == DriverState::IDLE,
    {
        PeripheralState { tx: DriverState::IDLE, rx: DriverState::IDLE }
    }
}

/// Owned model of one physical UART: the active line configuration and at
/// most one in-flight request per direction. At most one transmit and one
/// receive can ever be bound because each direction is a single option.
pub struct UartPeripheral {
    pub params: Parameters,
    pub tx: Option<TxRequest>,
    pub rx: Option<RxRequest>,
}

/// A transmit request the hardware can make progress on: its cursors are
/// inside the buffer and undrained requested data exists.
pub open spec fn tx_in_flight_ok(r: TxRequest) -> bool {
    &&& r.valid()
    &&& r.popped <= r.pushed
    &&& r.popped <= r.requested
}

/// A receive request the hardware can fill: it has a real buffer and has
/// not been filled beyond what was asked for.
pub open spec fn rx_in_flight_ok(r: RxRequest) -> bool {
    &&& r.valid()
    &&& r.buf is MUT
    &&& r.pushed <= r.requested
}

impl UartPeripheral {
    /// The in-flight requests, where present, are consistent.
    pub open spec fn wf(self) -> bool {
        &&& match self.tx {
            Some(r) => tx_in_flight_ok(r),
            None => true,
        }
        &&& match self.rx {
            Some(r) => rx_in_flight_ok(r),
            None => true,
        }
    }

    /// A freshly powered peripheral: default line settings, nothing bound.
    pub fn new() -> (r: UartPeripheral)
        ensures
            r.params == spec_default_params(),
            r.tx is None,
            r.rx is None,
            r.wf(),
    {
        UartPeripheral {
            params: Parameters {
                baud_rate: 115200,
                width: Width::Eight,
                parity: Parity::NONE,
                stop_bits: StopBits::One,
                hw_flow_control: false,
            },
            tx: None,
            rx: None,
        }
    }

    /// Apply a line configuration. Combinations the hardware cannot
    /// realise are rejected with `ENOSUPPORT` and leave the configuration
    /// untouched.
    pub fn configure(&mut self, params: Parameters) -> (r: ReturnCode)
        ensures
            r == ReturnCode::SUCCESS <==> supported_parameters(params),
            !supported_parameters(params) ==> r == ReturnCode::ENOSUPPORT,
            supported_parameters(params) ==> final(self).params == params,
            !supported_parameters(params) ==> final(self).params == old(self).params,
            final(self).tx == old(self).tx,
            final(self).rx == old(self).rx,
    {
        if !matches!(params.stop_bits, StopBits::One) {
            return ReturnCode::ENOSUPPORT;
        }
        if !matches!(params.parity, Parity::NONE) {
            return ReturnCode::ENOSUPPORT;
        }
        if params.hw_flow_control {
            return ReturnCode::ENOSUPPORT;
        }
        self.params = params;
        ReturnCode::SUCCESS
    }

    /// Bind a transmit request to the hardware. A request for zero bytes
    /// or for more than its buffer holds is rejected with `ESIZE`; a
    /// request while one is already bound is rejected with `EBUSY`; in
    /// both cases the request comes straight back to the caller.
    pub fn transmit_buffer(&mut self, tx: TxRequest) -> (r: (ReturnCode, Option<TxRequest>))
        requires
            old(self).wf(),
            tx.valid(),
            tx.popped <= tx.pushed,
            tx.popped <= tx.requested,
        ensures
            final(self).wf(),
            final(self).rx == old(self).rx,
            final(self).params == old(self).params,
            tx.requested == 0 ==> r.0 == ReturnCode::ESIZE && r.1 == Some(tx) && final(self).tx
                == old(self).tx,
            tx.requested != 0 && old(self).tx is Some ==> r.0 == ReturnCode::EBUSY && r.1 == Some(tx) && final(self).tx == old(self).tx,
            tx.requested != 0 && old(self).tx is None ==> r.0 == ReturnCode::SUCCESS && r.1
                is None && final(self).tx == Some(tx),
    {
        if tx.requested_length() == 0 {
            (ReturnCode::ESIZE, Some(tx))
        } else if self.tx.is_some() {
            (ReturnCode::EBUSY, Some(tx))
        } else {
            self.tx = Some(tx);
            (ReturnCode::SUCCESS, None)
        }
    }

    /// Bind a receive request to the hardware, with the same rejection
    /// rules as `transmit_buffer`.
    pub fn receive_buffer(&mut self, rx: RxRequest) -> (r: (ReturnCode, Option<RxRequest>))
        requires
            old(self).wf(),
            rx.valid(),
            rx.buf is MUT,
            rx.pushed <= rx.requested,
        ensures
            final(self).wf(),
            final(self).tx == old(self).tx,
            final(self).params == old(self).params,
            rx.requested == 0 ==> r.0 == ReturnCode::ESIZE && r.1 == Some(rx) && final(self).rx
                == old(self).rx,
            rx.requested != 0 && old(self).rx is Some ==> r.0 == ReturnCode::EBUSY && r.1 == Some(rx) && final(self).rx == old(self).rx,
            rx.requested != 0 && old(self).rx is None ==> r.0 == ReturnCode::SUCCESS && r.1
                is None && final(self).rx == Some(rx),
    {
        if rx.requested == 0 {
            (ReturnCode::ESIZE, Some(rx))
        } else if self.rx.is_some() {
            (ReturnCode::EBUSY, Some(rx))
        } else {
            self.rx = Some(rx);
            (ReturnCode::SUCCESS, None)
        }
    }

    /// Hardware progress report: the transmit FIFO drained every byte the
    /// in-flight request had ready, up to its requested length.
    pub fn hw_drain_transmit(&mut self)
        requires
            old(self).wf(),
        ensures
            final(self).wf(),
            final(self).rx == old(self).rx,
            final(self).params == old(self).params,
            old(self).tx is None ==> final(self).tx == old(self).tx,
            old(self).tx matches Some(t) ==> final(self).tx matches Some(d) && d.buf == t.buf
                && d.pushed == t.pushed && d.requested == t.requested && d.client_id == t.client_id
                && d.popped == vstd::math::min(t.pushed as int, t.requested as int),
    {
        let tx = self.tx.take();
        match tx {
            Some(mut t) => {
                while t.popped < t.pushed && t.popped < t.requested
                    invariant
                        tx_in_flight_ok(t),
                        t.buf == old(self).tx->Some_0.buf,
                        t.pushed == old(self).tx->Some_0.pushed,
                        t.requested == old(self).tx->Some_0.requested,
                        t.client_id == old(self).tx->Some_0.client_id,
                        t.popped >= old(self).tx->Some_0.popped,
                    decreases t.pushed - t.popped,
                {
                    let _ = t.pop();
                }
                self.tx = Some(t);
            }
            None => {
                self.tx = None;
            }
        }
    }

    /// Hardware progress report: one byte arrived on the line. It lands in
    /// the in-flight receive request if one is bound and still has both
    /// room and an unfulfilled requested length; otherwise it is dropped,
    /// as the hardware FIFO drops bytes nobody asked for.
    pub fn hw_receive_byte(&mut self, byte: u8) -> (accepted: bool)
        requires
            old(self).wf(),
        ensures
            final(self).wf(),
            final(self).tx == old(self).tx,
            final(self).params == old(self).params,
            accepted <==> (old(self).rx matches Some(r) && r.pushed < r.requested),
            !accepted ==> final(self).rx == old(self).rx,
            old(self).rx matches Some(r) ==> (r.pushed < r.requested ==> (
            final(self).rx matches Some(d) && d.buf.capacity() == r.buf.capacity() && d.buf.data()
                == r.buf.data().update(r.pushed as int, byte) && d.pushed == r.pushed + 1
                && d.popped == r.popped && d.requested == r.requested && d.client_id
                == r.client_id)),
    {
        let rx = self.rx.take();
        match rx {
            Some(mut r) => {
                if r.pushed < r.requested {
                    r.push(byte);
                    self.rx = Some(r);
                    true
                } else {
                    self.rx = Some(r);
                    false
                }
            }
            None => {
                self.rx = None;
                false
            }
        }
    }

    /// One-shot completion snapshot, consumed exactly once per interrupt:
    /// a direction's request is handed back if and only if it has reached
    /// its requested length, and the direction becomes unbound.
    pub fn handle_interrupt(&mut self) -> (r: (Option<TxRequest>, Option<RxRequest>))
        requires
            old(self).wf(),
        ensures
            final(self).wf(),
            final(self).params == old(self).params,
            old(self).tx matches Some(t) ==> (t.popped >= t.requested ==> (r.0 == Some(t)
                && final(self).tx is None)),
            !(old(self).tx matches Some(t) && t.popped >= t.requested) ==> (r.0 is None
                && final(self).tx == old(self).tx),
            old(self).rx matches Some(x) ==> (x.pushed >= x.requested ==> (r.1 == Some(x)
                && final(self).rx is None)),
            !(old(self).rx matches Some(x) && x.pushed >= x.requested) ==> (r.1 is None
                && final(self).rx == old(self).rx),
    {
        let tx_done = match &self.tx {
            Some(t) => t.request_completed(),
            None => false,
        };
        let rx_done = match &self.rx {
            Some(x) => x.request_completed(),
            None => false,
        };
        let tx = if tx_done {
            self.tx.take()
        } else {
            None
        };
        let rx = if rx_done {
            self.rx.take()
        } else {
            None
        };
        (tx, rx)
    }

    /// Abort of an in-flight receive is not wired on this hardware.
    pub fn receive_abort(&mut self) -> (r: ReturnCode)
        ensures
            r == ReturnCode::FAIL,
            *final(self) == *old(self),
    {
        ReturnCode::FAIL
    }
}

/// One registered kernel client of the multiplexer: the requests it has
/// prepared for dispatch and the completions handed back to it, newest
/// last. This is the owned equivalent of the client callback interface —
/// the multiplexer polls the request fields and appends to the completion
/// lists.
pub struct Client {
    pub tx_request: Option<TxRequest>,
    pub rx_request: Option<RxRequest>,
    pub completed_tx: Vec<TxRequest>,
    pub completed_rx: Vec<RxRequest>,
}

impl Client {
    /// A client with nothing prepared and nothing delivered.
    pub fn new() -> (r: Client)
        ensures
            r.tx_request is None,
            r.rx_request is None,
            r.completed_tx@ == Seq::<TxRequest>::empty(),
            r.completed_rx@ == Seq::<RxRequest>::empty(),
    {
        Client {
            tx_request: None,
            rx_request: None,
            completed_tx: Vec::new(),
            completed_rx: Vec::new(),
        }
    }

    /// Whether a transmit request with undrained, still-owed data is
    /// waiting to be fetched.
    pub fn has_tx_request(&self) -> (r: bool)
        ensures
            r == (self.tx_request matches Some(t) && t.popped < t.pushed && t.popped < t.requested),
    {
        match &self.tx_request {
            Some(t) => t.popped < t.pushed && t.popped < t.requested,
            None => false,
        }
    }

    /// Hand the prepared transmit request over to the multiplexer.
    pub fn get_tx_request(&mut self) -> (r: Option<TxRequest>)
        ensures
            r == old(self).tx_request,
            final(self).tx_request is None,
            final(self).rx_request == old(self).rx_request,
            final(self).completed_tx == old(self).completed_tx,
            final(self).completed_rx == old(self).completed_rx,
    {
        self.tx_request.take()
    }

    /// Completion delivery: the finished transmit request is appended to
    /// this client's completion list.
    pub fn tx_request_complete(&mut self, request: TxRequest)
        ensures
            final(self).completed_tx@ == old(self).completed_tx@.push(request),
            final(self).tx_request == old(self).tx_request,
            final(self).rx_request == old(self).rx_request,
            final(self).completed_rx == old(self).completed_rx,
    {
        self.completed_tx.push(request);
    }

    /// Whether a newly submitted receive request is waiting to be stashed.
    pub fn has_rx_request(&self) -> (r: bool)
        ensures
            r == (self.rx_request is Some),
    {
        self.rx_request.is_some()
    }

    /// Hand the submitted receive request over to the multiplexer.
    pub fn get_rx_request(&mut self) -> (r: Option<RxRequest>)
        ensures
            r == old(self).rx_request,
            final(self).rx_request is None,
            final(self).tx_request == old(self).tx_request,
            final(self).completed_tx == old(self).completed_tx,
            final(self).completed_rx == old(self).completed_rx,
    {
        self.rx_request.take()
    }

    /// Completion delivery: the finished receive request is appended to
    /// this client's completion list.
    pub fn rx_request_complete(&mut self, request: RxRequest)
        ensures
            final(self).completed_rx@ == old(self).completed_rx@.push(request),
            final(self).tx_request == old(self).tx_request,
            final(self).rx_request == old(self).rx_request,
            final(self).completed_tx == old(self).completed_tx,
    {
        self.completed_rx.push(request);
    }
}

} // verus!
