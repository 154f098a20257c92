//! UART request multiplexer: arbitrates transmit and receive requests from
//! any number of kernel clients onto one physical UART.
//!
//! The multiplexer guarantees at most one outstanding transmit and one
//! outstanding receive per peripheral, mirrors every received byte into all
//! other stashed listener requests that still have room (fan-out), and
//! dispatches the stashed request with the smallest remaining byte count
//! first, ties broken by lowest client index.

use crate::hil::uart::{
    Client, Parameters, Parity, PeripheralState, StopBits, UartPeripheral, Width,
};
use crate::ikc::DriverState;
use crate::ikc::{RxBuf, RxRequest, TxBuf, TxRequest};
use crate::returncode::ReturnCode;
use vstd::prelude::*;

verus! {

/// A transmit request the multiplexer will fetch from a client: it still
/// holds undrained data and an unfinished requested length.
pub open spec fn tx_dispatchable(t: TxRequest) -> bool {
    &&& t.valid()
    &&& t.popped < t.pushed
    &&& t.popped < t.requested
}

/// A receive request a client may submit: a non-empty real buffer,
/// requested in full, not yet overfilled.
pub open spec fn rx_submittable(r: RxRequest) -> bool {
    &&& r.valid()
    &&& r.buf is MUT
    &&& r.pushed <= r.requested
    &&& r.requested == r.buf.capacity()
    &&& r.requested > 0
}

/// A client slot holds nothing, or a submittable request routed to that
/// slot's index.
pub open spec fn stash_slot_ok(s: Option<RxRequest>, i: int) -> bool {
    match s {
        Some(r) => rx_submittable(r) && r.client_id == i,
        None => true,
    }
}

/// What one fan-out pass does to one client slot: an occupied slot
/// receives the completed request's bytes, in order, from the front, up
/// to its own remaining room; an empty slot stays empty. `c` is the
/// completing request.
pub open spec fn fanout_slot_post(
    before: Option<RxRequest>,
    after: Option<RxRequest>,
    c: RxRequest,
) -> bool {
    match before {
        None => after is None,
        Some(r) => match after {
            Some(d) => {
                let m = vstd::math::min(c.pushed as int, r.requested - r.pushed);
                &&& d.popped == r.popped
                &&& d.client_id == r.client_id
                &&& d.requested == r.requested
                &&& d.buf is MUT
                &&& d.buf.capacity() == r.buf.capacity()
                &&& d.pushed == r.pushed + m
                &&& forall|k: int| #![auto]
                    0 <= k < m ==> d.buf.data()[r.pushed + k] == c.buf.data()[k]
                &&& forall|k: int| #![auto]
                    0 <= k < r.buf.capacity() && !(r.pushed <= k < r.pushed + m)
                        ==> d.buf.data()[k] == r.buf.data()[k]
            },
            None => false,
        },
    }
}

/// One multiplexed UART: the owned peripheral, the multiplexer's
/// per-direction view of it, the client slots holding stashed receive
/// requests, and the staging requests used for userspace transfers.
pub struct Uart {
    /// The physical peripheral this multiplexer is responsible for.
    pub uart: UartPeripheral,
    /// The multiplexer's per-direction busy/idle view of the peripheral.
    pub state: PeripheralState,
    /// One slot per registered client, holding at most one stashed
    /// receive request each; `None` when the board provisioned no space.
    pub rx_requests: Option<Vec<Option<RxRequest>>>,
    /// Which userspace process owns the transmit staging request in
    /// flight, if any.
    pub app_tx_in_progress: Option<usize>,
    /// Which userspace process owns the receive staging request in
    /// flight, if any.
    pub app_rx_in_progress: Option<usize>,
    /// Staging space for copying userspace requests before dispatch.
    pub app_requests: AppRequests,
}

/// Staging requests for userspace transfers: the buffers userspace shares
/// are copied here before they are handed to the hardware.
pub struct AppRequests {
    pub tx: Option<TxRequest>,
    pub rx: Option<RxRequest>,
}

/// Per-process state of the userspace-facing driver: the process's shared
/// transmit and receive requests.
pub struct App {
    pub tx_request: TxRequest,
    pub rx_request: RxRequest,
}

impl App {
    /// A process slot with empty, unassigned requests.
    pub fn new() -> (r: App)
        ensures
            r.tx_request.buf is NONE,
            r.rx_request.buf is NONE,
            r.tx_request.valid(),
            r.rx_request.valid(),
    {
        App { tx_request: TxRequest::new(), rx_request: RxRequest::new() }
    }
}

/// Build a zero-filled buffer of the given length.
fn zero_buffer(len: usize) -> (r: Vec<u8>)
    ensures
        r@.len() == len,
        forall|i: int| 0 <= i < len ==> r@[i] == 0u8,
{
    let mut v: Vec<u8> = Vec::new();
    let mut i: usize = 0;
    while i < len
        invariant
            i <= len,
            v@.len() == i,
            forall|k: int| 0 <= k < i ==> v@[k] == 0u8,
        decreases len - i,
    {
        v.push(0u8);
        i = i + 1;
    }
    v
}

/// Byte capacity of the userspace staging buffers.
pub const APP_BUFFER_LEN: usize = 1024;

impl AppRequests {
    /// Fresh backing storage for the staging requests: two zeroed buffers
    /// and two empty requests.
    pub fn space() -> (r: (Vec<u8>, TxRequest, Vec<u8>, RxRequest))
        ensures
            r.0@.len() == APP_BUFFER_LEN,
            r.1.buf is NONE,
            r.1.valid(),
            r.2@.len() == APP_BUFFER_LEN,
            r.3.buf is NONE,
            r.3.valid(),
    {
        (
            zero_buffer(APP_BUFFER_LEN),
            TxRequest::new(),
            zero_buffer(APP_BUFFER_LEN),
            RxRequest::new(),
        )
    }

    /// Assemble the staging area from the default backing storage.
    pub fn new_with_default_space(space: (Vec<u8>, TxRequest, Vec<u8>, RxRequest)) -> (r:
        AppRequests)
        ensures
            r.tx matches Some(t) && t.buf == TxBuf::MUT(space.0) && t.pushed == 0 && t.popped == 0
                && t.requested == 0,
            r.rx matches Some(x) && x.buf == RxBuf::MUT(space.2) && x.pushed == 0 && x.popped == 0
                && x.requested == space.2@.len(),
    {
        let (tx_request_buffer, tx_request, rx_request_buffer, rx_request) = space;
        Self::new(tx_request_buffer, tx_request, rx_request_buffer, rx_request)
    }

    /// Assemble the staging area: the transmit request adopts its buffer
    /// empty (to be filled from userspace), the receive request adopts
    /// its buffer in full.
    pub fn new(
        tx_request_buffer: Vec<u8>,
        tx_request: TxRequest,
        rx_request_buffer: Vec<u8>,
        rx_request: RxRequest,
    ) -> (r: AppRequests)
        ensures
            r.tx matches Some(t) && t.buf == TxBuf::MUT(tx_request_buffer) && t.pushed == 0
                && t.popped == 0 && t.requested == 0,
            r.rx matches Some(x) && x.buf == RxBuf::MUT(rx_request_buffer) && x.pushed == 0
                && x.popped == 0 && x.requested == rx_request_buffer@.len(),
    {
        let mut tx_request = tx_request;
        let mut rx_request = rx_request;
        tx_request.set_with_mut_ref(tx_request_buffer);
        rx_request.set_buf(rx_request_buffer);
        AppRequests { tx: Some(tx_request), rx: Some(rx_request) }
    }
}

/// The line configuration every multiplexed UART starts with.
pub fn default_params() -> (r: Parameters)
    ensures
        r == crate::hil::uart::spec_default_params(),
        crate::hil::uart::supported_parameters(r),
{
    Parameters {
        baud_rate: 115200,
        width: Width::Eight,
        parity: Parity::NONE,
        stop_bits: StopBits::One,
        hw_flow_control: false,
    }
}

impl Uart {
    /// The multiplexer's bookkeeping is consistent for `n` registered
    /// clients: the busy/idle view matches the hardware, every bound or
    /// stashed request is well-formed, and every routing index is in
    /// range. In particular at most one transmit and at most one receive
    /// request is bound to the hardware, each held in a single option.
    pub open spec fn wf(self, n: int) -> bool {
        &&& self.uart.wf()
        &&& (self.state.tx == DriverState::BUSY <==> self.uart.tx is Some)
        &&& (self.state.rx == DriverState::BUSY <==> self.uart.rx is Some)
        &&& (match self.uart.tx {
            Some(t) => t.client_id < n,
            None => true,
        })
        &&& (match self.uart.rx {
            Some(x) => x.client_id < n && rx_submittable(x),
            None => true,
        })
        &&& (match self.rx_requests {
            Some(slots) => slots@.len() == n && (forall|i: int|
                0 <= i < n ==> stash_slot_ok(slots@[i], i)),
            None => true,
        })
    }

    /// The client slot table, as a sequence (empty when the board
    /// provisioned none).
    pub open spec fn stash(self) -> Seq<Option<RxRequest>> {
        match self.rx_requests {
            Some(slots) => slots@,
            None => Seq::<Option<RxRequest>>::empty(),
        }
    }

    /// Assemble a multiplexed UART around a peripheral. The peripheral is
    /// configured with the default line parameters; nothing is bound and
    /// both directions start idle.
    pub fn new(
        uart: UartPeripheral,
        rx_requests: Option<Vec<Option<RxRequest>>>,
        app_requests: AppRequests,
    ) -> (r: Uart)
        requires
            uart.tx is None,
            uart.rx is None,
        ensures
            r.uart.params == crate::hil::uart::spec_default_params(),
            r.uart.tx is None,
            r.uart.rx is None,
            r.state.tx == DriverState::IDLE,
            r.state.rx == DriverState::IDLE,
            r.rx_requests == rx_requests,
            r.app_requests == app_requests,
            r.app_tx_in_progress is None,
            r.app_rx_in_progress is None,
    {
        let mut uart = uart;
        let _ = uart.configure(default_params());
        Uart {
            uart,
            state: PeripheralState::new(),
            rx_requests,
            app_tx_in_progress: None,
            app_rx_in_progress: None,
            app_requests,
        }
    }

    /// Consume the peripheral's one-shot completion snapshot.
    pub fn handle_interrupt(&mut self) -> (r: (Option<TxRequest>, Option<RxRequest>))
        requires
            old(self).uart.wf(),
        ensures
            final(self).uart.wf(),
            final(self).state == old(self).state,
            final(self).rx_requests == old(self).rx_requests,
            final(self).app_requests == old(self).app_requests,
            final(self).app_tx_in_progress == old(self).app_tx_in_progress,
            final(self).app_rx_in_progress == old(self).app_rx_in_progress,
            old(self).uart.tx matches Some(t) ==> (t.popped >= t.requested ==> (r.0 == Some(t)
                && final(self).uart.tx is None)),
            !(old(self).uart.tx matches Some(t) && t.popped >= t.requested) ==> (r.0 is None
                && final(self).uart.tx == old(self).uart.tx),
            old(self).uart.rx matches Some(x) ==> (x.pushed >= x.requested ==> (r.1 == Some(x)
                && final(self).uart.rx is None)),
            !(old(self).uart.rx matches Some(x) && x.pushed >= x.requested) ==> (r.1 is None
                && final(self).uart.rx == old(self).uart.rx),
    {
        self.uart.handle_interrupt()
    }

    /// Stash a submitted receive request in its owner's client slot.
    ///
    /// Submitting for a client whose slot is already occupied, or without
    /// a provisioned slot table, is a kernel bug and fatal; both are
    /// excluded by contract and unreachable from verified callers.
    pub fn stash_rx_request(&mut self, rx: RxRequest)
        requires
            old(self).rx_requests matches Some(slots) && rx.client_id < slots@.len()
                && slots@[rx.client_id as int] is None,
            rx_submittable(rx),
        ensures
            final(self).rx_requests matches Some(slots) && slots@ == old(self).rx_requests->Some_0@.update(rx.client_id as int, Some(rx)),
            final(self).uart == old(self).uart,
            final(self).state == old(self).state,
            final(self).app_requests == old(self).app_requests,
            final(self).app_tx_in_progress == old(self).app_tx_in_progress,
            final(self).app_rx_in_progress == old(self).app_rx_in_progress,
    {
        let index = rx.client_id;
        match &mut self.rx_requests {
            Some(requests_stash) => {
                if requests_stash[index].is_some() {
                    // A second submission while one is pending would corrupt
                    // the bookkeeping; the kernel must never continue past it.
                    unreached()
                } else {
                    requests_stash.set(index, Some(rx));
                }
            }
            None => unreached(),
        }
    }

    /// Fan out a completed receive request: every byte it carries is also
    /// pushed, identically and in order, into every stashed listener
    /// request, each up to its own remaining room. The completed request
    /// itself is returned unchanged.
    #[verifier::loop_isolation(false)]
    pub fn mux_completed_tx_to_others(&mut self, completed_rx: RxRequest) -> (r: RxRequest)
        requires
            old(self).rx_requests is Some,
            completed_rx.valid(),
            completed_rx.buf is MUT,
            forall|i: int| #![auto]
                0 <= i < old(self).stash().len() ==> stash_slot_ok(old(self).stash()[i], i),
        ensures
            r == completed_rx,
            final(self).rx_requests matches Some(slots) && slots@.len() == old(self).stash().len(),
            forall|i: int| #![auto]
                0 <= i < old(self).stash().len() ==> fanout_slot_post(
                    old(self).stash()[i],
                    final(self).stash()[i],
                    completed_rx,
                ),
            final(self).uart == old(self).uart,
            final(self).state == old(self).state,
            final(self).app_requests == old(self).app_requests,
            final(self).app_tx_in_progress == old(self).app_tx_in_progress,
            final(self).app_rx_in_progress == old(self).app_rx_in_progress,
    {
        let items = completed_rx.items_pushed();
        match &mut self.rx_requests {
            Some(requests_stash) => {
                let n = requests_stash.len();
                let mut j: usize = 0;
                while j < n
                    invariant
                        n == old(self).stash().len(),
                        requests_stash@.len() == n,
                        j <= n,
                        completed_rx.valid(),
                        completed_rx.buf is MUT,
                        items == completed_rx.pushed,
                        forall|i: int| #![auto]
                            0 <= i < n ==> stash_slot_ok(old(self).stash()[i], i),
                        forall|i: int| #![auto]
                            j <= i < n ==> requests_stash@[i] == old(self).stash()[i],
                        forall|i: int| #![auto]
                            0 <= i < j ==> fanout_slot_post(
                                old(self).stash()[i],
                                requests_stash@[i],
                                completed_rx,
                            ),
                    decreases n - j,
                {
                    let slot = &mut requests_stash[j];
                    match slot.take() {
                        Some(mut request) => {
                            let ghost r0 = request;
                            let mut i: usize = 0;
                            while i < items && request.pushed < request.requested
                                invariant
                                    completed_rx.valid(),
                                    completed_rx.buf is MUT,
                                    items == completed_rx.pushed,
                                    rx_submittable(r0),
                                    request.valid(),
                                    request.buf is MUT,
                                    i <= items,
                                    request.pushed == r0.pushed + i,
                                    request.pushed <= request.requested,
                                    request.requested == r0.requested,
                                    request.popped == r0.popped,
                                    request.client_id == r0.client_id,
                                    request.buf.capacity() == r0.buf.capacity(),
                                    forall|k: int| #![auto]
                                        0 <= k < i ==> request.buf.data()[r0.pushed + k]
                                            == completed_rx.buf.data()[k],
                                    forall|k: int| #![auto]
                                        0 <= k < r0.buf.capacity() && !(r0.pushed <= k < r0.pushed
                                            + i) ==> request.buf.data()[k] == r0.buf.data()[k],
                                decreases items - i,
                            {
                                let item = match &completed_rx.buf {
                                    RxBuf::MUT(buf) => buf[i],
                                    RxBuf::NONE => 0,
                                };
                                request.push(item);
                                i = i + 1;
                            }
                            proof {
                                assert(fanout_slot_post(Some(r0), Some(request), completed_rx));
                            }
                            *slot = Some(request);
                        }
                        None => {}
                    }
                    j = j + 1;
                }
            }
            None => unreached(),
        }
        completed_rx
    }

    /// Collect one stashed request that has become full as a side effect
    /// of fan-out: the occupied slot with the lowest index whose request
    /// has reached its requested length is emptied and its request
    /// returned. `None` when no stashed request is full.
    #[verifier::loop_isolation(false)]
    pub fn get_other_completed_rx(&mut self) -> (r: Option<RxRequest>)
        requires
            forall|i: int| #![auto]
                0 <= i < old(self).stash().len() ==> stash_slot_ok(old(self).stash()[i], i),
        ensures
            final(self).uart == old(self).uart,
            final(self).state == old(self).state,
            final(self).app_requests == old(self).app_requests,
            final(self).app_tx_in_progress == old(self).app_tx_in_progress,
            final(self).app_rx_in_progress == old(self).app_rx_in_progress,
            match r {
                Some(req) => {
                    &&& 0 <= req.client_id < old(self).stash().len()
                    &&& old(self).stash()[req.client_id as int] == Some(req)
                    &&& req.pushed >= req.requested
                    &&& final(self).rx_requests matches Some(slots) && slots@ == old(self).rx_requests->Some_0@.update(req.client_id as int, None)
                    &&& forall|i: int|
                        0 <= i < req.client_id ==> ((#[trigger] old(self).stash()[i])
                            matches Some(x) ==> (x.pushed < x.requested))
                },
                None => {
                    &&& final(self).stash() == old(self).stash()
                    &&& (final(self).rx_requests is Some <==> old(self).rx_requests is Some)
                    &&& forall|i: int|
                        0 <= i < old(self).stash().len() ==> ((#[trigger] old(self).stash()[i])
                            matches Some(x) ==> (x.pushed < x.requested))
                },
            },
    {
        match &mut self.rx_requests {
            Some(requests_stash) => {
                let n = requests_stash.len();
                let mut i: usize = 0;
                while i < n
                    invariant
                        n == requests_stash@.len(),
                        requests_stash@ == old(self).rx_requests->Some_0@,
                        i <= n,
                        forall|k: int| #![auto]
                            0 <= k < n ==> stash_slot_ok(requests_stash@[k], k),
                        forall|k: int|
                            0 <= k < i ==> ((#[trigger] requests_stash@[k]) matches Some(x) ==> (
                            x.pushed < x.requested)),
                    decreases n - i,
                {
                    let full = match &requests_stash[i] {
                        Some(request) => request.pushed >= request.requested,
                        None => false,
                    };
                    if full {
                        let slot = &mut requests_stash[i];
                        let request = slot.take();
                        return request;
                    }
                    i = i + 1;
                }
                None
            }
            None => None,
        }
    }

    /// Dispatch the stashed request with the smallest remaining byte
    /// count (`requested - pushed`, counting only requests that still
    /// await data), ties broken by lowest client index, and bind it to
    /// the hardware. Returns whether anything was dispatched.
    #[verifier::loop_isolation(false)]
    pub fn dispatch_shortest_rx_request(&mut self) -> (dispatched: bool)
        requires
            old(self).rx_requests is Some,
            old(self).uart.wf(),
            old(self).uart.rx is None,
            forall|i: int| #![auto]
                0 <= i < old(self).stash().len() ==> stash_slot_ok(old(self).stash()[i], i),
        ensures
            final(self).uart.wf(),
            final(self).uart.tx == old(self).uart.tx,
            final(self).uart.params == old(self).uart.params,
            final(self).state == old(self).state,
            final(self).app_requests == old(self).app_requests,
            final(self).app_tx_in_progress == old(self).app_tx_in_progress,
            final(self).app_rx_in_progress == old(self).app_rx_in_progress,
            dispatched <==> exists|i: int|
                0 <= i < old(self).stash().len() && ((#[trigger] old(self).stash()[i])
                    matches Some(x) && x.pushed < x.requested),
            !dispatched ==> final(self).stash() == old(self).stash() && final(self).rx_requests
                is Some && final(self).uart.rx == old(self).uart.rx,
            dispatched ==> (final(self).uart.rx matches Some(d) && {
                &&& 0 <= d.client_id < old(self).stash().len()
                &&& old(self).stash()[d.client_id as int] == Some(d)
                &&& d.pushed < d.requested
                &&& final(self).rx_requests matches Some(slots) && slots@ == old(self).rx_requests->Some_0@.update(d.client_id as int, None)
                &&& forall|i: int|
                    0 <= i < old(self).stash().len() ==> ((#[trigger] old(self).stash()[i])
                        matches Some(x) ==> (x.pushed < x.requested ==> d.requested - d.pushed
                        <= x.requested - x.pushed))
                &&& forall|i: int|
                    0 <= i < d.client_id ==> ((#[trigger] old(self).stash()[i]) matches Some(x)
                        ==> (x.pushed < x.requested ==> x.requested - x.pushed > d.requested
                        - d.pushed))
            }),
    {
        let mut found = false;
        let mut min: usize = 0;
        let mut min_index: usize = 0;
        match &mut self.rx_requests {
            Some(requests_stash) => {
                let n = requests_stash.len();
                let mut i: usize = 0;
                while i < n
                    invariant
                        n == requests_stash@.len(),
                        requests_stash@ == old(self).rx_requests->Some_0@,
                        i <= n,
                        forall|k: int| #![auto]
                            0 <= k < n ==> stash_slot_ok(requests_stash@[k], k),
                        found <==> exists|k: int|
                            0 <= k < i && ((#[trigger] requests_stash@[k]) matches Some(x)
                                && x.pushed < x.requested),
                        found ==> 0 <= min_index < i && (requests_stash@[min_index as int]
                            matches Some(x) && x.pushed < x.requested && min == x.requested
                            - x.pushed),
                        found ==> forall|k: int|
                            0 <= k < i ==> ((#[trigger] requests_stash@[k]) matches Some(x) ==> (
                            x.pushed < x.requested ==> min <= x.requested - x.pushed)),
                        found ==> forall|k: int|
                            0 <= k < min_index ==> ((#[trigger] requests_stash@[k])
                                matches Some(x) ==> (x.pushed < x.requested ==> x.requested
                                - x.pushed > min)),
                    decreases n - i,
                {
                    match &requests_stash[i] {
                        Some(request) => {
                            if request.pushed < request.requested {
                                let request_remaining = request.request_remaining();
                                if !found {
                                    found = true;
                                    min = request_remaining;
                                    min_index = i;
                                } else if request_remaining < min {
                                    min = request_remaining;
                                    min_index = i;
                                }
                            }
                        }
                        None => {}
                    }
                    i = i + 1;
                }
                if found {
                    let slot = &mut requests_stash[min_index];
                    match slot.take() {
                        Some(request) => {
                            let (_code, _back) = self.uart.receive_buffer(request);
                            return true;
                        }
                        None => unreached(),
                    }
                }
                false
            }
            None => unreached(),
        }
    }

    /// Userspace receive path; not wired on this hardware.
    pub fn receive(&self) -> (r: ReturnCode)
        ensures
            r == ReturnCode::ENOSUPPORT,
    {
        ReturnCode::ENOSUPPORT
    }
}


/// Userspace driver entry points. The command-number convention is
/// shared by every capsule: zero is the presence check, one transmits
/// the buffer shared via `allow`, two receives into it, three aborts an
/// in-progress receive. The upper half of the first argument selects
/// the peripheral.
impl UartDriver {
    /// Share a userspace buffer: number one is the write buffer (the
    /// whole slice becomes the process's pending transmit), number two
    /// the read buffer (not wired on this hardware). Anything else is
    /// unsupported.
    pub fn allow(&mut self, app: &mut App, allow_num: u16, slice: Vec<u8>) -> (r: ReturnCode)
        ensures
            final(self).uart == old(self).uart,
            allow_num == 1 ==> r == ReturnCode::SUCCESS && final(app).tx_request.buf
                == crate::ikc::TxBuf::APP_SLICE(slice) && final(app).tx_request.pushed == 0
                && final(app).tx_request.popped == 0 && final(app).tx_request.requested
                == slice@.len() && final(app).rx_request == old(app).rx_request,
            allow_num == 2 ==> r == ReturnCode::SUCCESS && *final(app) == *old(app),
            allow_num != 1 && allow_num != 2 ==> r == ReturnCode::ENOSUPPORT && *final(app)
                == *old(app),
    {
        match allow_num {
            1 => {
                app.tx_request.set_with_app_slice(slice);
                ReturnCode::SUCCESS
            }
            2 => ReturnCode::SUCCESS,
            _ => ReturnCode::ENOSUPPORT,
        }
    }

    /// Initiate a serial transfer for a process: command zero reports
    /// presence, command one stages and dispatches up to `arg1` bytes of
    /// the shared write buffer (or leaves the request pending while the
    /// transmitter is busy), command two is the unwired receive path,
    /// command three aborts a receive, which this hardware refuses.
    pub fn command(&mut self, cmd_num: u16, uart_num: usize, arg1: usize, app: &mut App, appid: usize) -> (r:
        ReturnCode)
        requires
            uart_num < old(self).uart@.len(),
            old(self).uart@[uart_num as int].uart.wf(),
            old(self).uart@[uart_num as int].app_requests.tx matches Some(t) && t.valid()
                && t.buf is MUT,
            old(app).tx_request.valid(),
            old(app).tx_request.buf is APP_SLICE,
            old(app).tx_request.popped <= vstd::math::min(
                arg1 as int,
                old(app).tx_request.buf.capacity() as int,
            ),
        ensures
            final(self).uart@.len() == old(self).uart@.len(),
            cmd_num == 0 ==> r == ReturnCode::SUCCESS && final(self).uart@ == old(self).uart@
                && *final(app) == *old(app),
            cmd_num == 2 ==> r == ReturnCode::SUCCESS && final(self).uart@ == old(self).uart@
                && *final(app) == *old(app),
            cmd_num == 3 ==> r == ReturnCode::SUCCESS && *final(app) == *old(app),
            cmd_num > 3 ==> r == ReturnCode::ENOSUPPORT && final(self).uart@ == old(self).uart@
                && *final(app) == *old(app),
            cmd_num == 1 ==> final(app).tx_request.requested == vstd::math::min(
                arg1 as int,
                old(app).tx_request.buf.capacity() as int,
            ) && final(app).tx_request.buf == old(app).tx_request.buf,
            cmd_num == 1 && old(self).uart@[uart_num as int].uart.tx is Some ==> r
                == ReturnCode::SUCCESS && final(self).uart@ == old(self).uart@ && final(app).tx_request.popped == old(app).tx_request.popped,
            cmd_num == 1 && old(self).uart@[uart_num as int].uart.tx is None ==> ({
                let new_requested = vstd::math::min(
                    arg1 as int,
                    old(app).tx_request.buf.capacity() as int,
                );
                let staged = vstd::math::min(
                    old(self).uart@[uart_num as int].app_requests.tx->Some_0.buf.capacity() as int,
                    new_requested - old(app).tx_request.popped,
                );
                &&& final(app).tx_request.popped == old(app).tx_request.popped + staged
                &&& (staged > 0 ==> r == ReturnCode::SUCCESS && (final(self).uart@[
                uart_num as int].uart.tx matches Some(t) && t.pushed == staged && t.requested
                    == staged && t.popped == 0 && (forall|k: int| #![auto]
                    0 <= k < staged ==> t.buf.data()[k] == old(app).tx_request.buf.data()[old(app).tx_request.popped + k])) && final(self).uart@[uart_num as int].app_requests.tx
                    is None && final(self).uart@[uart_num as int].app_tx_in_progress == Some(
                    appid,
                ))
                &&& (staged == 0 ==> r == ReturnCode::ESIZE && final(self).uart@[
                uart_num as int].uart.tx is None && final(self).uart@[uart_num as int].app_requests.tx is Some)
            }),
            cmd_num == 1 ==> forall|k: int| #![auto]
                0 <= k < old(self).uart@.len() && k != uart_num ==> final(self).uart@[k] == old(self).uart@[k],
    {
        match cmd_num {
            0 => ReturnCode::SUCCESS,
            1 => {
                app.tx_request.set_request_len(arg1);
                let tx_idle = self.uart[uart_num].uart.tx.is_none();
                if tx_idle {
                    self.transmit_app_request(uart_num, app, appid)
                } else {
                    ReturnCode::SUCCESS
                }
            }
            2 => ReturnCode::SUCCESS,
            3 => {
                let u = &mut self.uart[uart_num];
                let _ = u.uart.receive_abort();
                ReturnCode::SUCCESS
            }
            _ => ReturnCode::ENOSUPPORT,
        }
    }
}

/// A client is holding a transmit request the multiplexer would fetch.
pub open spec fn client_has_tx(c: Client) -> bool {
    c.tx_request matches Some(t) && t.popped < t.pushed && t.popped < t.requested
}

/// Per-client precondition of the interrupt round: prepared transmit
/// requests are well-formed, and a freshly submitted receive request is
/// submittable and its slot is free (a second submission while one is
/// stashed is a kernel bug and fatal).
pub open spec fn client_ok(u: Uart, c: Client, i: int) -> bool {
    &&& (c.tx_request matches Some(t) ==> t.valid())
    &&& (c.rx_request matches Some(x) ==> rx_submittable(x) && u.stash()[i] is None)
}

/// The userspace-facing driver: one multiplexer per physical UART.
pub struct UartDriver {
    pub uart: Vec<Uart>,
}

impl UartDriver {
    /// Assemble the driver around its multiplexed UARTs.
    pub fn new(uarts: Vec<Uart>) -> (r: UartDriver)
        ensures
            r.uart == uarts,
    {
        UartDriver { uart: uarts }
    }

    /// Bind a fetched transmit request to peripheral `uart_num`. The
    /// peripheral must be idle in the transmit direction; the binding
    /// then always succeeds.
    pub fn handle_tx_request(&mut self, uart_num: usize, tx: TxRequest)
        requires
            uart_num < old(self).uart@.len(),
            old(self).uart@[uart_num as int].uart.wf(),
            old(self).uart@[uart_num as int].uart.tx is None,
            tx_dispatchable(tx),
        ensures
            final(self).uart@.len() == old(self).uart@.len(),
            forall|k: int| #![auto]
                0 <= k < old(self).uart@.len() && k != uart_num ==> final(self).uart@[k] == old(self).uart@[k],
            final(self).uart@[uart_num as int].uart.tx == Some(tx),
            final(self).uart@[uart_num as int].uart.rx == old(self).uart@[uart_num as int].uart.rx,
            final(self).uart@[uart_num as int].uart.params == old(self).uart@[uart_num as int].uart.params,
            final(self).uart@[uart_num as int].state == old(self).uart@[uart_num as int].state,
            final(self).uart@[uart_num as int].rx_requests == old(self).uart@[uart_num as int].rx_requests,
            final(self).uart@[uart_num as int].app_requests == old(self).uart@[uart_num as int].app_requests,
            final(self).uart@[uart_num as int].app_tx_in_progress == old(self).uart@[uart_num as int].app_tx_in_progress,
            final(self).uart@[uart_num as int].app_rx_in_progress == old(self).uart@[uart_num as int].app_rx_in_progress,
    {
        let u = &mut self.uart[uart_num];
        let (_code, _back) = u.uart.transmit_buffer(tx);
    }

    /// Stage and dispatch a userspace transmit: the process's shared
    /// bytes are copied into the staging request, which is then bound to
    /// the hardware. With nothing left to stage the request is rejected
    /// with `ESIZE` and the staging space is kept for the next attempt.
    pub fn transmit_app_request(&mut self, uart_num: usize, app: &mut App, app_id: usize) -> (r:
        ReturnCode)
        requires
            uart_num < old(self).uart@.len(),
            old(self).uart@[uart_num as int].uart.wf(),
            old(self).uart@[uart_num as int].uart.tx is None,
            old(self).uart@[uart_num as int].app_requests.tx matches Some(t) && t.valid()
                && t.buf is MUT,
            old(app).tx_request.valid(),
            old(app).tx_request.buf is APP_SLICE,
            old(app).tx_request.popped <= old(app).tx_request.requested,
        ensures
            final(self).uart@.len() == old(self).uart@.len(),
            forall|k: int| #![auto]
                0 <= k < old(self).uart@.len() && k != uart_num ==> final(self).uart@[k] == old(self).uart@[k],
            final(app).tx_request.buf == old(app).tx_request.buf,
            final(app).tx_request.requested == old(app).tx_request.requested,
            ({
                let staged = vstd::math::min(
                    old(self).uart@[uart_num as int].app_requests.tx->Some_0.buf.capacity() as int,
                    old(app).tx_request.requested - old(app).tx_request.popped,
                );
                &&& final(app).tx_request.popped == old(app).tx_request.popped + staged
                &&& (staged > 0 ==> r == ReturnCode::SUCCESS && (final(self).uart@[uart_num as int].uart.tx matches Some(t) && t.pushed == staged
                    && t.requested == staged && t.popped == 0 && (forall|k: int| #![auto]
                    0 <= k < staged ==> t.buf.data()[k] == old(app).tx_request.buf.data()[old(app).tx_request.popped + k])) && final(self).uart@[uart_num as int].app_requests.tx is None && final(self).uart@[uart_num as int].app_tx_in_progress == Some(app_id))
                &&& (staged == 0 ==> r == ReturnCode::ESIZE && final(self).uart@[uart_num as int].uart.tx is None && final(self).uart@[uart_num as int].app_requests.tx is Some)
            }),
    {
        let u = &mut self.uart[uart_num];
        match u.app_requests.tx.take() {
            Some(mut request) => {
                request.copy_from_app_slice(&mut app.tx_request);
                u.app_tx_in_progress = Some(app_id);
                let (code, back) = u.uart.transmit_buffer(request);
                match back {
                    Some(rejected) => {
                        u.app_requests.tx = Some(rejected);
                    }
                    None => {}
                }
                code
            }
            None => unreached(),
        }
    }
}

/// Scan the clients in index order and dispatch the first prepared
/// transmit request: it is routed to its owner's index and bound to the
/// peripheral. First match wins; no fairness beyond index order.
#[verifier::loop_isolation(false)]
pub fn dispatch_next_tx_request(num: usize, driver: &mut UartDriver, clients: &mut Vec<Client>)
    -> (dispatched: bool)
    requires
        num < old(driver).uart@.len(),
        old(driver).uart@[num as int].uart.wf(),
        old(driver).uart@[num as int].uart.tx is None,
        forall|i: int|
            0 <= i < old(clients)@.len() ==> ((#[trigger] old(clients)@[i]).tx_request
                matches Some(t) ==> t.valid()),
    ensures
        final(clients)@.len() == old(clients)@.len(),
        final(driver).uart@.len() == old(driver).uart@.len(),
        forall|k: int| #![auto]
            0 <= k < old(driver).uart@.len() && k != num ==> final(driver).uart@[k] == old(driver).uart@[k],
        dispatched <==> exists|i: int|
            0 <= i < old(clients)@.len() && client_has_tx(#[trigger] old(clients)@[i]),
        !dispatched ==> final(driver).uart@[num as int] == old(driver).uart@[num as int] && final(clients)@ == old(clients)@,
        dispatched ==> (final(driver).uart@[num as int].uart.tx matches Some(t) && {
            let j = t.client_id as int;
            &&& 0 <= j < old(clients)@.len()
            &&& client_has_tx(old(clients)@[j])
            &&& (old(clients)@[j].tx_request matches Some(t0) && t.buf == t0.buf && t.pushed
                == t0.pushed && t.popped == t0.popped && t.requested == t0.requested)
            &&& final(clients)@ == old(clients)@.update(
                j,
                (Client {
                    tx_request: None,
                    rx_request: old(clients)@[j].rx_request,
                    completed_tx: old(clients)@[j].completed_tx,
                    completed_rx: old(clients)@[j].completed_rx,
                }),
            )
            &&& forall|i: int| 0 <= i < j ==> !client_has_tx(#[trigger] old(clients)@[i])
            &&& final(driver).uart@[num as int].uart.rx == old(driver).uart@[num as int].uart.rx
            &&& final(driver).uart@[num as int].state == old(driver).uart@[num as int].state
            &&& final(driver).uart@[num as int].rx_requests == old(driver).uart@[num as int].rx_requests
            &&& final(driver).uart@[num as int].app_requests == old(driver).uart@[num as int].app_requests
        }),
{
    let n = clients.len();
    let mut index: usize = 0;
    while index < n
        invariant
            n == clients@.len(),
            clients@ == old(clients)@,
            driver.uart@ == old(driver).uart@,
            index <= n,
            forall|i: int| 0 <= i < index ==> !client_has_tx(#[trigger] clients@[i]),
        decreases n - index,
    {
        let has = clients[index].has_tx_request();
        if has {
            let client = &mut clients[index];
            match client.get_tx_request() {
                Some(mut tx) => {
                    tx.client_id = index;
                    driver.handle_tx_request(num, tx);
                    return true;
                }
                None => unreached(),
            }
        }
        index = index + 1;
    }
    false
}

/// Move every newly submitted receive request into its owner's client
/// slot, routing each to its owner's index on the way.
#[verifier::loop_isolation(false)]
pub fn take_new_rx_requests(num: usize, driver: &mut UartDriver, clients: &mut Vec<Client>)
    requires
        num < old(driver).uart@.len(),
        old(driver).uart@[num as int].rx_requests is Some,
        old(driver).uart@[num as int].stash().len() == old(clients)@.len(),
        forall|i: int| #![auto]
            0 <= i < old(clients)@.len() ==> stash_slot_ok(
                old(driver).uart@[num as int].stash()[i],
                i,
            ),
        forall|i: int|
            0 <= i < old(clients)@.len() ==> ((#[trigger] old(clients)@[i]).rx_request
                matches Some(x) ==> rx_submittable(x) && old(driver).uart@[num as int].stash()[i]
                is None),
    ensures
        final(clients)@.len() == old(clients)@.len(),
        final(driver).uart@.len() == old(driver).uart@.len(),
        forall|k: int| #![auto]
            0 <= k < old(driver).uart@.len() && k != num ==> final(driver).uart@[k] == old(driver).uart@[k],
        final(driver).uart@[num as int].rx_requests is Some,
        final(driver).uart@[num as int].stash().len() == old(clients)@.len(),
        final(driver).uart@[num as int].uart == old(driver).uart@[num as int].uart,
        final(driver).uart@[num as int].state == old(driver).uart@[num as int].state,
        final(driver).uart@[num as int].app_requests == old(driver).uart@[num as int].app_requests,
        final(driver).uart@[num as int].app_tx_in_progress == old(driver).uart@[num as int].app_tx_in_progress,
        final(driver).uart@[num as int].app_rx_in_progress == old(driver).uart@[num as int].app_rx_in_progress,
        forall|i: int|
            0 <= i < old(clients)@.len() ==> match (#[trigger] old(clients)@[i]).rx_request {
                Some(x) => final(driver).uart@[num as int].stash()[i] matches Some(y) && y.buf
                    == x.buf && y.pushed == x.pushed && y.popped == x.popped && y.requested
                    == x.requested && y.client_id == i && final(clients)@[i].rx_request is None,
                None => final(driver).uart@[num as int].stash()[i] == old(driver).uart@[num as int].stash()[i] && final(clients)@[i].rx_request == old(clients)@[i].rx_request,
            },
        forall|i: int| #![auto]
            0 <= i < old(clients)@.len() ==> final(clients)@[i].tx_request == old(clients)@[i].tx_request && final(clients)@[i].completed_tx == old(clients)@[i].completed_tx
                && final(clients)@[i].completed_rx == old(clients)@[i].completed_rx,
        forall|i: int| #![auto]
            0 <= i < old(clients)@.len() ==> stash_slot_ok(
                final(driver).uart@[num as int].stash()[i],
                i,
            ),
{
    let n = clients.len();
    let mut index: usize = 0;
    while index < n
        invariant
            n == clients@.len(),
            clients@.len() == old(clients)@.len(),
            driver.uart@.len() == old(driver).uart@.len(),
            forall|k: int| #![auto]
                0 <= k < old(driver).uart@.len() && k != num ==> driver.uart@[k] == old(driver).uart@[k],
            driver.uart@[num as int].rx_requests is Some,
            driver.uart@[num as int].stash().len() == old(clients)@.len(),
            driver.uart@[num as int].uart == old(driver).uart@[num as int].uart,
            driver.uart@[num as int].state == old(driver).uart@[num as int].state,
            driver.uart@[num as int].app_requests == old(driver).uart@[num as int].app_requests,
            driver.uart@[num as int].app_tx_in_progress == old(driver).uart@[num as int].app_tx_in_progress,
            driver.uart@[num as int].app_rx_in_progress == old(driver).uart@[num as int].app_rx_in_progress,
            index <= n,
            forall|i: int|
                0 <= i < index ==> match (#[trigger] old(clients)@[i]).rx_request {
                    Some(x) => driver.uart@[num as int].stash()[i] matches Some(y) && y.buf
                        == x.buf && y.pushed == x.pushed && y.popped == x.popped && y.requested
                        == x.requested && y.client_id == i && clients@[i].rx_request is None,
                    None => driver.uart@[num as int].stash()[i] == old(driver).uart@[num as int].stash()[i] && clients@[i].rx_request == old(clients)@[i].rx_request,
                },
            forall|i: int| #![auto]
                index <= i < n ==> driver.uart@[num as int].stash()[i] == old(driver).uart@[num as int].stash()[i] && clients@[i].rx_request == old(clients)@[i].rx_request,
            forall|i: int| #![auto]
                0 <= i < n ==> clients@[i].tx_request == old(clients)@[i].tx_request
                    && clients@[i].completed_tx == old(clients)@[i].completed_tx
                    && clients@[i].completed_rx == old(clients)@[i].completed_rx,
            forall|i: int| #![auto]
                0 <= i < n ==> stash_slot_ok(driver.uart@[num as int].stash()[i], i),
        decreases n - index,
    {
        let has = clients[index].has_rx_request();
        if has {
            let client = &mut clients[index];
            match client.get_rx_request() {
                Some(mut rx) => {
                    rx.client_id = index;
                    let u = &mut driver.uart[num];
                    u.stash_rx_request(rx);
                }
                None => unreached(),
            }
        }
        index = index + 1;
    }
}


/// `t` extends `s`: every element of `s` is still in place and `t` is at
/// least as long.
pub open spec fn seq_extends<T>(s: Seq<T>, t: Seq<T>) -> bool {
    &&& t.len() >= s.len()
    &&& forall|j: int| 0 <= j < s.len() ==> t[j] == s[j]
}

/// The in-flight transmit, if any, is retired by this round's
/// completion snapshot, leaving the transmit direction idle for
/// re-dispatch.
pub open spec fn tx_retired(u: Uart) -> bool {
    match u.uart.tx {
        Some(t) => t.popped >= t.requested,
        None => true,
    }
}

/// The in-flight receive, if any, is retired by this round's completion
/// snapshot, leaving the receive direction idle for re-dispatch.
pub open spec fn rx_retired(u: Uart) -> bool {
    match u.uart.rx {
        Some(x) => x.pushed >= x.requested,
        None => true,
    }
}

/// Bytes this round fans out to every stashed listener: the completing
/// receive's fill, or zero when no receive completes.
pub open spec fn round_fanout_bytes(u: Uart) -> int {
    match u.uart.rx {
        Some(x) => if x.pushed >= x.requested {
            x.pushed as int
        } else {
            0
        },
        None => 0,
    }
}

/// The remaining byte count that slot `i` carries into this round's
/// receive re-dispatch: a stashed request that survives the fan-out
/// with room left, or the request client `i` newly submitted into its
/// empty slot; nothing when the slot offers no eligible request.
pub open spec fn rx_candidate_remaining(u: Uart, clients: Seq<Client>, i: int) -> Option<int> {
    let c = round_fanout_bytes(u);
    match u.stash()[i] {
        Some(r) => if c < r.requested - r.pushed {
            Some(r.requested - r.pushed - c)
        } else {
            None
        },
        None => match clients[i].rx_request {
            Some(x) => if x.pushed < x.requested {
                Some(x.requested - x.pushed)
            } else {
                None
            },
            None => None,
        },
    }
}

/// Number of stashed requests already filled to their requested length.
pub open spec fn num_full(s: Seq<Option<RxRequest>>) -> int
    decreases s.len(),
{
    if s.len() == 0 {
        0
    } else {
        num_full(s.drop_last()) + (match s.last() {
            Some(r) => if r.pushed >= r.requested {
                1int
            } else {
                0int
            },
            None => 0int,
        })
    }
}

/// The full count never exceeds the slot count and is never negative.
proof fn lemma_num_full_bounds(s: Seq<Option<RxRequest>>)
    ensures
        0 <= num_full(s) <= s.len(),
    decreases s.len(),
{
    if s.len() > 0 {
        lemma_num_full_bounds(s.drop_last());
    }
}

/// Emptying a slot that held a full request lowers the full count by
/// exactly one.
proof fn lemma_num_full_remove(s: Seq<Option<RxRequest>>, i: int)
    requires
        0 <= i < s.len(),
        s[i] matches Some(r) && r.pushed >= r.requested,
    ensures
        num_full(s.update(i, None)) == num_full(s) - 1,
    decreases s.len(),
{
    if i == s.len() - 1 {
        assert(s.update(i, None).drop_last() =~= s.drop_last());
    } else {
        assert(s.update(i, None).drop_last() =~= s.drop_last().update(i, None));
        lemma_num_full_remove(s.drop_last(), i);
    }
}

/// With a full count of zero, no stashed request is full.
proof fn lemma_num_full_zero(s: Seq<Option<RxRequest>>, i: int)
    requires
        num_full(s) == 0,
        0 <= i < s.len(),
        s[i] matches Some(r),
    ensures
        s[i]->Some_0.pushed < s[i]->Some_0.requested,
    decreases s.len(),
{
    lemma_num_full_bounds(s.drop_last());
    if i < s.len() - 1 {
        lemma_num_full_zero(s.drop_last(), i);
    }
}

/// One full interrupt round for peripheral `num`, in the load-bearing
/// order: retire a completed transmit, then retire a completed receive
/// (fanning its bytes out to every stashed listener and handing back any
/// listener that became full), then dispatch the next prepared transmit,
/// then stash newly submitted receive requests, then dispatch the
/// stashed receive with the least remaining bytes, lowest client index
/// winning ties. The multiplexer's bookkeeping invariant is preserved,
/// so at most one request per direction is ever bound to the hardware,
/// and every completion is delivered exactly once, to its owner alone.
#[verifier::loop_isolation(false)]
#[verifier::rlimit(100)]
pub fn handle_irq(num: usize, driver: &mut UartDriver, clients: &mut Vec<Client>)
    requires
        num < old(driver).uart@.len(),
        old(driver).uart@[num as int].wf(old(clients)@.len() as int),
        old(driver).uart@[num as int].rx_requests is Some,
        forall|i: int|
            0 <= i < old(clients)@.len() ==> client_ok(
                old(driver).uart@[num as int],
                #[trigger] old(clients)@[i],
                i,
            ),
    ensures
        final(clients)@.len() == old(clients)@.len(),
        final(driver).uart@.len() == old(driver).uart@.len(),
        forall|k: int| #![auto]
            0 <= k < old(driver).uart@.len() && k != num ==> final(driver).uart@[k] == old(driver).uart@[k],
        final(driver).uart@[num as int].wf(old(clients)@.len() as int),
        final(driver).uart@[num as int].rx_requests is Some,
        forall|c: int| #![auto]
            0 <= c < old(clients)@.len() ==> seq_extends(
                old(clients)@[c].completed_tx@,
                final(clients)@[c].completed_tx@,
            ) && seq_extends(old(clients)@[c].completed_rx@, final(clients)@[c].completed_rx@),
        // Every completion delivered this round is routed to its owner
        // and to nobody else.
        forall|c: int, j: int|
            0 <= c < old(clients)@.len() && old(clients)@[c].completed_tx@.len() <= j < final(clients)@[c].completed_tx@.len() ==> (#[trigger] final(clients)@[c].completed_tx@[j]).client_id
                == c,
        forall|c: int, j: int|
            0 <= c < old(clients)@.len() && old(clients)@[c].completed_rx@.len() <= j < final(clients)@[c].completed_rx@.len() ==> (#[trigger] final(clients)@[c].completed_rx@[j]).client_id
                == c,
        // The completing transmit goes back to exactly its owner; with
        // none completing, no transmit completion is delivered at all.
        old(driver).uart@[num as int].uart.tx matches Some(t) ==> (t.popped >= t.requested ==> (
        0 <= t.client_id < old(clients)@.len() && final(clients)@[t.client_id as int].completed_tx@
            == old(clients)@[t.client_id as int].completed_tx@.push(t) && (forall|c: int| #![auto]
            0 <= c < old(clients)@.len() && c != t.client_id ==> final(clients)@[c].completed_tx
                == old(clients)@[c].completed_tx))),
        !(old(driver).uart@[num as int].uart.tx matches Some(t) && t.popped >= t.requested)
            ==> (forall|c: int| #![auto]
            0 <= c < old(clients)@.len() ==> final(clients)@[c].completed_tx == old(clients)@[c].completed_tx),
        // The completing receive reaches its owner first; with none
        // completing, no receive completion is delivered at all.
        old(driver).uart@[num as int].uart.rx matches Some(x) ==> (x.pushed >= x.requested ==> (
        0 <= x.client_id < old(clients)@.len()
            && final(clients)@[x.client_id as int].completed_rx@.len() > old(clients)@[
            x.client_id as int].completed_rx@.len() && final(clients)@[
            x.client_id as int].completed_rx@[old(clients)@[x.client_id as int].completed_rx@.len() as int]
            == x)),
        !(old(driver).uart@[num as int].uart.rx matches Some(x) && x.pushed >= x.requested)
            ==> (forall|c: int| #![auto]
            0 <= c < old(clients)@.len() ==> final(clients)@[c].completed_rx == old(clients)@[c].completed_rx),
        // An unfinished in-flight request is never unbound: re-dispatch
        // happens only after its direction retires.
        old(driver).uart@[num as int].uart.tx matches Some(t) ==> (t.popped < t.requested
            ==> final(driver).uart@[num as int].uart.tx == old(driver).uart@[num as int].uart.tx),
        old(driver).uart@[num as int].uart.rx matches Some(x) ==> (x.pushed < x.requested
            ==> final(driver).uart@[num as int].uart.rx == old(driver).uart@[num as int].uart.rx),
        // Once the transmit direction retires, the first client holding
        // a prepared transmit is dispatched; with none prepared, the
        // direction stays unbound.
        tx_retired(old(driver).uart@[num as int]) ==> ((final(driver).uart@[num as int].uart.tx
            is Some) <==> exists|i: int|
            0 <= i < old(clients)@.len() && client_has_tx(#[trigger] old(clients)@[i])),
        tx_retired(old(driver).uart@[num as int]) ==> (final(driver).uart@[num as int].uart.tx
            matches Some(t) ==> {
            let j = t.client_id as int;
            &&& 0 <= j < old(clients)@.len()
            &&& (old(clients)@[j].tx_request matches Some(t0) && t.buf == t0.buf && t.pushed
                == t0.pushed && t.popped == t0.popped && t.requested == t0.requested)
            &&& forall|i: int| 0 <= i < j ==> !client_has_tx(#[trigger] old(clients)@[i])
            &&& final(clients)@[j].tx_request is None
        }),
        // Once the receive direction retires, the round's eligible
        // candidate with the least remaining bytes is bound, lowest
        // client index winning ties; with no candidate, the direction
        // stays unbound.
        rx_retired(old(driver).uart@[num as int]) ==> ((final(driver).uart@[num as int].uart.rx
            is Some) <==> exists|i: int|
            0 <= i < old(clients)@.len() && rx_candidate_remaining(
                old(driver).uart@[num as int],
                old(clients)@,
                i,
            ) is Some),
        rx_retired(old(driver).uart@[num as int]) ==> (final(driver).uart@[num as int].uart.rx
            matches Some(d) ==> {
            let j = d.client_id as int;
            &&& 0 <= j < old(clients)@.len()
            &&& rx_candidate_remaining(old(driver).uart@[num as int], old(clients)@, j) == Some(
                d.requested - d.pushed,
            )
            &&& forall|i: int|
                0 <= i < old(clients)@.len() ==> (#[trigger] rx_candidate_remaining(
                    old(driver).uart@[num as int],
                    old(clients)@,
                    i,
                ) matches Some(m) ==> d.requested - d.pushed <= m)
            &&& forall|i: int|
                0 <= i < j ==> (#[trigger] rx_candidate_remaining(
                    old(driver).uart@[num as int],
                    old(clients)@,
                    i,
                ) matches Some(m) ==> m > d.requested - d.pushed)
            &&& final(driver).uart@[num as int].stash()[j] is None
        }),
{
    let ghost n = old(clients)@.len() as int;
    let ghost u_old = old(driver).uart@[num as int];
    let u = &mut driver.uart[num];
    let completions = u.handle_interrupt();
    let tx_complete = completions.0;
    let rx_complete = completions.1;

    // A finished transmit goes back to its owning client; transmit is idle.
    match tx_complete {
        Some(request) => {
            u.state.tx = DriverState::IDLE;
            let client_id = request.client_id;
            let client = &mut clients[client_id];
            client.tx_request_complete(request);
        }
        None => {}
    }

    let ghost clients_a = clients@;
    proof {
        assert(clients_a.len() == n);
        assert forall|i: int| 0 <= i < n implies (#[trigger] clients_a[i]).tx_request == old(clients)@[i].tx_request && clients_a[i].rx_request == old(clients)@[i].rx_request && clients_a[i].completed_rx == old(clients)@[i].completed_rx by {}
        assert forall|i: int|
            0 <= i < n && !(u_old.uart.tx matches Some(t) && t.popped >= t.requested
                && t.client_id == i) implies (#[trigger] clients_a[i]).completed_tx == old(clients)@[i].completed_tx by {}
    }

    // A finished receive is fanned out to every stashed listener, handed
    // back to its owner, and every listener that became full as a side
    // effect is handed back too; receive is idle.
    match rx_complete {
        Some(request) => {
            u.state.rx = DriverState::IDLE;
            let request = u.mux_completed_tx_to_others(request);
            let ghost ufan = *u;
            proof {
                assert forall|i: int| 0 <= i < n implies stash_slot_ok(
                    #[trigger] u.stash()[i],
                    i,
                ) by {
                    assert(stash_slot_ok(u_old.stash()[i], i));
                    assert(fanout_slot_post(u_old.stash()[i], u.stash()[i], request));
                }
            }
            let client_id = request.client_id;
            let client = &mut clients[client_id];
            client.rx_request_complete(request);

            let ghost u0 = *u;
            let ghost clients0 = clients@;
            proof {
                assert forall|i: int| 0 <= i < n implies (#[trigger] clients0[i]).tx_request
                    == old(clients)@[i].tx_request && clients0[i].rx_request == old(clients)@[i].rx_request && clients0[i].completed_tx == clients_a[i].completed_tx by {
                    assert(clients_a[i].tx_request == old(clients)@[i].tx_request);
                }
                lemma_num_full_bounds(u0.stash());
            }
            let total = clients.len();
            let mut k: usize = 0;
            let mut no_more = false;
            while k < total
                invariant
                    k <= total,
                    u.uart == u0.uart,
                    u.state == u0.state,
                    u.rx_requests is Some,
                    u.stash().len() == n,
                    u.app_requests == u0.app_requests,
                    u.app_tx_in_progress == u0.app_tx_in_progress,
                    u.app_rx_in_progress == u0.app_rx_in_progress,
                    forall|i: int| #![auto] 0 <= i < n ==> stash_slot_ok(u.stash()[i], i),
                    forall|i: int|
                        0 <= i < n ==> match #[trigger] u0.stash()[i] {
                            None => u.stash()[i] is None,
                            Some(r) => u.stash()[i] == u0.stash()[i] || (u.stash()[i] is None
                                && r.pushed >= r.requested),
                        },
                    !no_more ==> num_full(u.stash()) + k <= num_full(u0.stash()),
                    no_more ==> (forall|i: int|
                        0 <= i < n ==> ((#[trigger] u.stash()[i]) matches Some(rr) ==> rr.pushed
                            < rr.requested)),
                    clients@.len() == clients0.len(),
                    forall|c: int|
                        0 <= c < n ==> (#[trigger] clients@[c]).tx_request
                            == clients0[c].tx_request && clients@[c].rx_request
                            == clients0[c].rx_request && clients@[c].completed_tx
                            == clients0[c].completed_tx && seq_extends(
                            clients0[c].completed_rx@,
                            clients@[c].completed_rx@,
                        ),
                    forall|c: int, j: int|
                        0 <= c < n && clients0[c].completed_rx@.len() <= j < clients@[c].completed_rx@.len() ==> (#[trigger] clients@[c].completed_rx@[j]).client_id == c,
                decreases total - k,
            {
                if !no_more {
                    let ghost stash_pre = u.stash();
                    match u.get_other_completed_rx() {
                        Some(next_request) => {
                            proof {
                                lemma_num_full_remove(stash_pre, next_request.client_id as int);
                            }
                            let next_id = next_request.client_id;
                            let next_client = &mut clients[next_id];
                            next_client.rx_request_complete(next_request);
                        }
                        None => {
                            no_more = true;
                        }
                    }
                }
                k = k + 1;
            }
            proof {
                // All listeners the fan-out filled to the brim have been
                // handed back; what remains stashed still has room.
                assert forall|i: int|
                    0 <= i < n implies ((#[trigger] u.stash()[i]) matches Some(rr) ==> rr.pushed
                    < rr.requested) by {
                    if !no_more {
                        lemma_num_full_bounds(u.stash());
                        if u.stash()[i] matches Some(rr) && rr.pushed >= rr.requested {
                            lemma_num_full_zero(u.stash(), i);
                        }
                    }
                }
                // The stash now holds exactly the fan-out survivors with
                // room to spare, at their pre-round positions.
                assert forall|i: int| 0 <= i < n implies match #[trigger] u_old.stash()[i] {
                    None => u.stash()[i] is None,
                    Some(r) => if request.pushed < r.requested - r.pushed {
                        u.stash()[i] matches Some(y) && y.client_id == i && y.pushed == r.pushed
                            + request.pushed && y.requested == r.requested && y.pushed
                            < y.requested
                    } else {
                        u.stash()[i] is None
                    },
                } by {
                    assert(stash_slot_ok(u_old.stash()[i], i));
                    assert(fanout_slot_post(u_old.stash()[i], ufan.stash()[i], request));
                }
                assert forall|i: int| 0 <= i < n implies (#[trigger] clients@[i]).tx_request
                    == old(clients)@[i].tx_request && clients@[i].rx_request == old(clients)@[i].rx_request && clients@[i].completed_tx == clients_a[i].completed_tx by {
                    assert(clients@[i].tx_request == clients0[i].tx_request);
                    assert(clients0[i].tx_request == old(clients)@[i].tx_request);
                }
            }
        }
        None => {}
    }

    let ghost clients_b = clients@;
    let ghost stash_b = driver.uart@[num as int].stash();
    proof {
        if !(u_old.uart.rx matches Some(x) && x.pushed >= x.requested) {
            assert(stash_b == u_old.stash());
        }
        assert forall|i: int| 0 <= i < n implies ((#[trigger] clients@[i]).tx_request
            matches Some(t) ==> t.valid()) && (clients@[i].rx_request matches Some(x)
            ==> rx_submittable(x) && driver.uart@[num as int].stash()[i] is None) by {
            assert(client_ok(u_old, old(clients)@[i], i));
            assert(clients@[i].tx_request == old(clients)@[i].tx_request);
            assert(clients@[i].rx_request == old(clients)@[i].rx_request);
        }
        assert forall|i: int| 0 <= i < n implies stash_slot_ok(
            #[trigger] driver.uart@[num as int].stash()[i],
            i,
        ) by {
            assert(stash_slot_ok(u_old.stash()[i], i));
        }
    }

    // Dispatch the next prepared transmit only once the old one has been
    // retired, so hardware state is never double-bound.
    let tx_idle = matches!(driver.uart[num].state.tx, DriverState::IDLE);
    proof {
        assert forall|i: int| 0 <= i < n implies client_has_tx(#[trigger] clients@[i])
            == client_has_tx(old(clients)@[i]) by {
            assert(clients@[i].tx_request == old(clients)@[i].tx_request);
        }
        assert forall|i: int| 0 <= i < n implies client_has_tx(#[trigger] old(clients)@[i])
            == client_has_tx(clients@[i]) by {
            assert(clients@[i].tx_request == old(clients)@[i].tx_request);
        }
    }
    if tx_idle {
        if dispatch_next_tx_request(num, driver, clients) {
            let u = &mut driver.uart[num];
            u.state.tx = DriverState::BUSY;
        }
    }

    // Each client can have one (and only one) pending receive at a time;
    // stash any submitted this round.
    let ghost pre_intake = clients@;
    take_new_rx_requests(num, driver, clients);

    // If the receive direction is idle, bind the stashed request with the
    // least remaining bytes.
    let rx_idle = matches!(driver.uart[num].state.rx, DriverState::IDLE);
    proof {
        if rx_idle {
            // Relate the stash the re-dispatch sees to the candidates
            // the round's inputs determine.
            assert forall|i: int| 0 <= i < n implies match #[trigger] driver.uart@[num as int].stash()[i] {
                Some(y) => rx_candidate_remaining(u_old, old(clients)@, i) == (if y.pushed
                    < y.requested {
                    Some(y.requested - y.pushed)
                } else {
                    None::<int>
                }),
                None => rx_candidate_remaining(u_old, old(clients)@, i) is None,
            } by {
                assert(client_ok(u_old, old(clients)@[i], i));
                assert(stash_slot_ok(u_old.stash()[i], i));
                assert(pre_intake[i].rx_request == clients_b[i].rx_request);
                assert(clients_b[i].rx_request == old(clients)@[i].rx_request);
                if pre_intake[i].rx_request is Some {
                    // The freshly submitted request landed in its empty
                    // slot, routed to this index.
                    assert(u_old.stash()[i] is None);
                    assert(stash_b[i] is None);
                    assert(driver.uart@[num as int].stash()[i] matches Some(y) && y.pushed
                        == pre_intake[i].rx_request->Some_0.pushed && y.requested
                        == pre_intake[i].rx_request->Some_0.requested);
                } else {
                    // The slot kept what the completion phase left in it.
                    assert(driver.uart@[num as int].stash()[i] == stash_b[i]);
                    if u_old.uart.rx is Some && u_old.uart.rx->Some_0.pushed
                        >= u_old.uart.rx->Some_0.requested {
                        assert(round_fanout_bytes(u_old) == u_old.uart.rx->Some_0.pushed);
                    } else {
                        assert(stash_b == u_old.stash());
                        assert(round_fanout_bytes(u_old) == 0);
                    }
                }
            }
            assert forall|i: int|
                0 <= i < n implies ((#[trigger] rx_candidate_remaining(u_old, old(clients)@, i))
                is Some <==> (driver.uart@[num as int].stash()[i] matches Some(y) && y.pushed
                < y.requested)) by {
                assert(0 <= i < driver.uart@[num as int].stash().len());
            }
        }
    }
    if rx_idle {
        let u = &mut driver.uart[num];
        if u.dispatch_shortest_rx_request() {
            u.state.rx = DriverState::BUSY;
        }
    }
}


/// A client declares it has transmit data ready. The client must have
/// no other transmit outstanding. With the peripheral's transmit
/// direction idle the request is bound and sent at once; otherwise it
/// waits in the client slot and is picked up on the next idle round.
/// The multiplexer invariant is preserved, so at most one transmit is
/// ever bound to the hardware.
pub fn submit_transmit(
    num: usize,
    driver: &mut UartDriver,
    clients: &mut Vec<Client>,
    client_id: usize,
    request: TxRequest,
)
    requires
        num < old(driver).uart@.len(),
        client_id < old(clients)@.len(),
        old(driver).uart@[num as int].wf(old(clients)@.len() as int),
        tx_dispatchable(request),
        old(clients)@[client_id as int].tx_request is None,
    ensures
        final(clients)@.len() == old(clients)@.len(),
        final(driver).uart@.len() == old(driver).uart@.len(),
        forall|k: int| #![auto]
            0 <= k < old(driver).uart@.len() && k != num ==> final(driver).uart@[k] == old(driver).uart@[k],
        final(driver).uart@[num as int].wf(old(clients)@.len() as int),
        final(driver).uart@[num as int].rx_requests == old(driver).uart@[num as int].rx_requests,
        old(driver).uart@[num as int].uart.tx is None ==> (final(driver).uart@[num as int].uart.tx matches Some(t) && t.client_id == client_id && t.buf
            == request.buf && t.pushed == request.pushed && t.popped == request.popped
            && t.requested == request.requested && final(clients)@ == old(clients)@),
        old(driver).uart@[num as int].uart.tx is Some ==> (final(driver).uart@[num as int] == old(driver).uart@[num as int] && final(clients)@ == old(clients)@.update(
            client_id as int,
            (Client {
                tx_request: Some(request),
                rx_request: old(clients)@[client_id as int].rx_request,
                completed_tx: old(clients)@[client_id as int].completed_tx,
                completed_rx: old(clients)@[client_id as int].completed_rx,
            }),
        )),
{
    let tx_idle = matches!(driver.uart[num].state.tx, DriverState::IDLE);
    if tx_idle {
        let mut request = request;
        request.client_id = client_id;
        driver.handle_tx_request(num, request);
        let u = &mut driver.uart[num];
        u.state.tx = DriverState::BUSY;
    } else {
        let client = &mut clients[client_id];
        client.tx_request = Some(request);
    }
}

/// A client declares interest in receiving up to its request's length.
/// The client's slot must be empty: a second submission while one is
/// stashed is a kernel bug and fatal, never a silent overwrite. The
/// request is stashed in the client slot and becomes eligible for
/// hardware binding once any outstanding receive completes (or on the
/// next round if the receive direction is idle). The multiplexer
/// invariant is preserved, so at most one receive is ever bound to the
/// hardware.
pub fn submit_receive(
    num: usize,
    driver: &mut UartDriver,
    clients: &mut Vec<Client>,
    client_id: usize,
    request: RxRequest,
)
    requires
        num < old(driver).uart@.len(),
        client_id < old(clients)@.len(),
        old(driver).uart@[num as int].wf(old(clients)@.len() as int),
        old(driver).uart@[num as int].rx_requests is Some,
        rx_submittable(request),
        old(driver).uart@[num as int].stash()[client_id as int] is None,
    ensures
        final(clients)@ == old(clients)@,
        final(driver).uart@.len() == old(driver).uart@.len(),
        forall|k: int| #![auto]
            0 <= k < old(driver).uart@.len() && k != num ==> final(driver).uart@[k] == old(driver).uart@[k],
        final(driver).uart@[num as int].wf(old(clients)@.len() as int),
        final(driver).uart@[num as int].uart == old(driver).uart@[num as int].uart,
        final(driver).uart@[num as int].state == old(driver).uart@[num as int].state,
        final(driver).uart@[num as int].rx_requests matches Some(slots) && slots@ == old(driver).uart@[num as int].rx_requests->Some_0@.update(
            client_id as int,
            Some(
                RxRequest {
                    buf: request.buf,
                    pushed: request.pushed,
                    popped: request.popped,
                    requested: request.requested,
                    client_id,
                },
            ),
        ),
{
    let mut request = request;
    request.client_id = client_id;
    let u = &mut driver.uart[num];
    u.stash_rx_request(request);
}

/// Double submission is fatal, never silent: a receive submission is
/// admitted only into an empty slot (the occupied-slot input is outside
/// `submit_receive`'s contract and panics at the kernel boundary), and
/// the admitted stash update provably changes no other slot and
/// replaces no stashed request.
pub proof fn lemma_no_silent_overwrite(
    before: Seq<Option<RxRequest>>,
    after: Seq<Option<RxRequest>>,
    rx: RxRequest,
)
    requires
        0 <= rx.client_id < before.len(),
        before[rx.client_id as int] is None,
        after == before.update(rx.client_id as int, Some(rx)),
    ensures
        after[rx.client_id as int] == Some(rx),
        forall|i: int| #![auto]
            0 <= i < before.len() && i != rx.client_id ==> after[i] == before[i],
        forall|i: int| #![auto]
            0 <= i < before.len() ==> (before[i] is Some ==> after[i] == before[i]),
{
}

/// No data loss on fan-out: a stashed listener with room for every byte
/// of the completing request receives all of them, identically and in
/// order, appended right after what it already held.
pub proof fn lemma_fanout_no_data_loss(
    before: Option<RxRequest>,
    after: Option<RxRequest>,
    c: RxRequest,
)
    requires
        fanout_slot_post(before, after, c),
        before matches Some(r) && r.requested - r.pushed >= c.pushed,
    ensures
        after matches Some(d) && d.pushed == before->Some_0.pushed + c.pushed && forall|k: int|
            #![auto]
            0 <= k < c.pushed ==> d.buf.data()[before->Some_0.pushed + k] == c.buf.data()[k],
{
}

} // verus!
