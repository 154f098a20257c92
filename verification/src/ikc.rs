//! Primitive request descriptors for intra-kernel communication.
//!
//! A transmit or receive request couples a byte buffer with three cursors:
//! `pushed` (bytes written into the buffer so far), `popped` (bytes read out
//! so far) and `requested` (the total size of the request). A request is
//! owned by exactly one side at a time — the client before submission, the
//! peripheral multiplexer while in flight, and the client again on
//! completion — so buffers are moved, never aliased.

use vstd::prelude::*;

verus! {

/// Backing storage of a transmit request. `CONST` carries data prepared in
/// advance (dispatched as-is), `MUT` is filled by the client byte by byte,
/// `APP_SLICE` holds bytes shared in from a userspace process, and `NONE`
/// is an empty placeholder that can never be dispatched.
#[allow(non_camel_case_types)]
pub enum TxBuf {
    NONE,
    CONST(Vec<u8>),
    MUT(Vec<u8>),
    APP_SLICE(Vec<u8>),
}

/// Backing storage of a receive request: either a fillable buffer or an
/// empty placeholder.
#[allow(non_camel_case_types)]
pub enum RxBuf {
    NONE,
    MUT(Vec<u8>),
}

impl TxBuf {
    /// Number of bytes the backing storage can hold.
    pub open spec fn capacity(self) -> nat {
        match self {
            TxBuf::NONE => 0,
            TxBuf::CONST(b) => b@.len(),
            TxBuf::MUT(b) => b@.len(),
            TxBuf::APP_SLICE(b) => b@.len(),
        }
    }

    /// The bytes currently held by the backing storage.
    pub open spec fn data(self) -> Seq<u8> {
        match self {
            TxBuf::NONE => Seq::<u8>::empty(),
            TxBuf::CONST(b) => b@,
            TxBuf::MUT(b) => b@,
            TxBuf::APP_SLICE(b) => b@,
        }
    }
}

impl RxBuf {
    /// Number of bytes the backing storage can hold.
    pub open spec fn capacity(self) -> nat {
        match self {
            RxBuf::NONE => 0,
            RxBuf::MUT(b) => b@.len(),
        }
    }

    /// The bytes currently held by the backing storage.
    pub open spec fn data(self) -> Seq<u8> {
        match self {
            RxBuf::NONE => Seq::<u8>::empty(),
            RxBuf::MUT(b) => b@,
        }
    }
}

/// Client identifier used before a request has been routed to a client slot.
pub const UNASSIGNED_CLIENT_ID: usize = 0xFF;

/// A transmit request: a buffer plus cursors for how much has been filled
/// in (`pushed`), drained out to the hardware (`popped`) and asked for in
/// total (`requested`), and the identifier used to route the completed
/// request back to its owner.
pub struct TxRequest {
    pub buf: TxBuf,
    /// The total amount of data written in.
    pub pushed: usize,
    /// The total amount of data read out.
    pub popped: usize,
    /// The total size of the request.
    pub requested: usize,
    /// Identifier to route the response to its owner.
    pub client_id: usize,
}

/// A receive request: a buffer plus the same three cursors, filled by the
/// hardware (`pushed`) and drained by the client (`popped`).
pub struct RxRequest {
    pub buf: RxBuf,
    /// The total amount of data written in.
    pub pushed: usize,
    /// The total amount of data read out.
    pub popped: usize,
    /// The total size of the request.
    pub requested: usize,
    /// Identifier to route the response to its owner.
    pub client_id: usize,
}

/// A request of either direction, for interfaces that carry both.
#[allow(non_camel_case_types)]
pub enum Request {
    TX(TxRequest),
    RX(RxRequest),
}

/// Per-direction hardware state: at most one operation of each direction is
/// ever bound to the peripheral, and this records whether one currently is.
#[allow(non_camel_case_types)]
#[derive(Copy, Clone, Debug, PartialEq, Eq, Structural)]
pub enum DriverState {
    BUSY,
    IDLE,
}

impl TxRequest {
    /// Cursors stay within the backing buffer.
    pub open spec fn valid(self) -> bool {
        &&& self.pushed <= self.buf.capacity()
        &&& self.popped <= self.buf.capacity()
        &&& self.requested <= self.buf.capacity()
    }

    /// Bytes not yet drained out of the request.
    pub open spec fn spec_remaining(self) -> int {
        self.requested - self.popped
    }

    /// Read the next undrained byte and advance the drain cursor.
    pub fn pop(&mut self) -> (r: Option<u8>)
        requires
            old(self).valid(),
            old(self).popped < old(self).pushed,
        ensures
            final(self).valid(),
            r == Some(old(self).buf.data()[old(self).popped as int]),
            final(self).popped == old(self).popped + 1,
            final(self).buf == old(self).buf,
            final(self).pushed == old(self).pushed,
            final(self).requested == old(self).requested,
            final(self).client_id == old(self).client_id,
    {
        let ret = match &self.buf {
            TxBuf::CONST(s) => Some(s[self.popped]),
            TxBuf::MUT(s) => Some(s[self.popped]),
            TxBuf::APP_SLICE(s) => Some(s[self.popped]),
            TxBuf::NONE => None,
        };
        self.popped = self.popped + 1;
        ret
    }

    /// Append one byte; only a client-fillable (`MUT`) request accepts new
    /// data, and both the fill cursor and the request size grow with it.
    pub fn push(&mut self, element: u8)
        requires
            old(self).valid(),
            old(self).buf is MUT,
            old(self).pushed < old(self).buf.capacity(),
            old(self).requested < old(self).buf.capacity(),
        ensures
            final(self).valid(),
            final(self).buf is MUT,
            final(self).buf.capacity() == old(self).buf.capacity(),
            final(self).buf.data() == old(self).buf.data().update(
                old(self).pushed as int,
                element,
            ),
            final(self).pushed == old(self).pushed + 1,
            final(self).requested == old(self).requested + 1,
            final(self).popped == old(self).popped,
            final(self).client_id == old(self).client_id,
    {
        let cap: usize = match &self.buf {
            TxBuf::MUT(buf) => buf.len(),
            _ => 0,
        };
        match &mut self.buf {
            TxBuf::MUT(buf) => {
                buf.set(self.pushed, element);
            }
            _ => {}
        }
        self.pushed = self.pushed + 1;
        self.requested = self.requested + 1;
        proof {
            assert(self.pushed <= cap);
        }
    }

    /// Stage the undrained part of a userspace request into this fillable
    /// request, making it ready to dispatch: as many bytes as fit are copied
    /// to the front of this buffer, the source drain cursor advances past
    /// them, and this request's size becomes exactly the bytes staged.
    pub fn copy_from_app_slice(&mut self, input: &mut TxRequest)
        requires
            old(self).valid(),
            old(input).valid(),
            old(self).buf is MUT,
            old(input).buf is APP_SLICE,
            old(input).popped <= old(input).requested,
        ensures
            final(self).valid(),
            final(input).valid(),
            final(self).buf is MUT,
            final(input).buf == old(input).buf,
            final(self).buf.capacity() == old(self).buf.capacity(),
            final(self).pushed == vstd::math::min(
                old(self).buf.capacity() as int,
                old(input).requested - old(input).popped,
            ),
            final(self).requested == final(self).pushed,
            final(self).popped == 0,
            final(self).buf.data().len() == old(self).buf.capacity(),
            forall|k: int| #![auto]
                0 <= k < final(self).pushed
                    ==> final(self).buf.data()[k] == old(input).buf.data()[old(input).popped + k],
            forall|k: int| #![auto]
                final(self).pushed <= k < old(self).buf.capacity()
                    ==> final(self).buf.data()[k] == old(self).buf.data()[k],
            final(input).popped == old(input).popped + final(self).pushed,
            final(input).pushed == old(input).pushed,
            final(input).requested == old(input).requested,
            final(input).client_id == old(input).client_id,
            final(self).client_id == old(self).client_id,
    {
        let num_elements: usize = match (&mut self.buf, &input.buf) {
            (TxBuf::MUT(buf), TxBuf::APP_SLICE(s)) => {
                let available: usize = input.requested - input.popped;
                let num: usize = if buf.len() < available {
                    buf.len()
                } else {
                    available
                };
                let mut i: usize = 0;
                while i < num
                    invariant
                        i <= num,
                        num <= buf@.len(),
                        num <= available,
                        available == old(input).requested - old(input).popped,
                        old(input).valid(),
                        old(input).popped + num <= s@.len(),
                        s@ == old(input).buf.data(),
                        old(input).popped == input.popped,
                        old(input).requested == input.requested,
                        buf@.len() == old(self).buf.capacity(),
                        forall|k: int|
                            0 <= k < i ==> buf@[k] == old(input).buf.data()[old(input).popped + k],
                        forall|k: int| i <= k < buf@.len() ==> buf@[k] == old(self).buf.data()[k],
                    decreases num - i,
                {
                    buf.set(i, s[input.popped + i]);
                    i = i + 1;
                }
                num
            }
            _ => 0,
        };
        input.popped = input.popped + num_elements;
        self.pushed = num_elements;
        self.requested = num_elements;
        self.popped = 0;
    }

    /// Whether any filled-in data has not yet been drained.
    pub fn has_some(&self) -> (r: bool)
        ensures
            r == (self.popped < self.pushed),
    {
        self.popped < self.pushed
    }

    /// The total size of the request.
    pub fn requested_length(&self) -> (r: usize)
        ensures
            r == self.requested,
    {
        self.requested
    }

    /// Bytes of the request not yet drained out.
    pub fn remaining_request(&self) -> (r: usize)
        requires
            self.popped <= self.requested,
        ensures
            r == self.requested - self.popped,
    {
        self.requested - self.popped
    }

    /// Whether the whole request has been drained.
    pub fn request_completed(&self) -> (r: bool)
        ensures
            r == (self.popped >= self.requested),
    {
        self.popped >= self.requested
    }

    /// Whether another byte can be pushed in.
    pub fn has_room(&self) -> (r: bool)
        ensures
            r == (self.buf is MUT && self.pushed < self.buf.capacity()),
    {
        match &self.buf {
            TxBuf::MUT(buf) => self.pushed < buf.len(),
            _ => false,
        }
    }

    /// How many more bytes can be pushed in.
    pub fn room_available(&self) -> (r: usize)
        requires
            self.valid(),
        ensures
            r == if self.buf is MUT {
                self.buf.capacity() - self.pushed
            } else {
                0
            },
    {
        match &self.buf {
            TxBuf::MUT(buf) => buf.len() - self.pushed,
            _ => 0,
        }
    }

    /// Rewind the cursors: a prepared (`CONST`) or userspace buffer is again
    /// requested in full, a fillable one becomes empty.
    pub fn reset(&mut self)
        requires
            old(self).valid(),
        ensures
            final(self).buf == old(self).buf,
            final(self).pushed == 0,
            final(self).popped == 0,
            final(self).client_id == old(self).client_id,
            final(self).requested == match old(self).buf {
                TxBuf::MUT(_) => 0,
                TxBuf::CONST(_) => old(self).buf.capacity() as usize,
                TxBuf::APP_SLICE(_) => old(self).buf.capacity() as usize,
                TxBuf::NONE => old(self).requested,
            },
            final(self).valid(),
    {
        self.pushed = 0;
        self.popped = 0;
        match &self.buf {
            TxBuf::MUT(_buf) => {
                self.requested = 0;
            }
            TxBuf::CONST(buf) => {
                self.requested = buf.len();
            }
            TxBuf::APP_SLICE(s) => {
                self.requested = s.len();
            }
            TxBuf::NONE => {}
        }
    }

    /// Adopt a prepared buffer: everything in it counts as already filled
    /// in and requested, ready to dispatch.
    pub fn set_with_const_ref(&mut self, buf: Vec<u8>)
        ensures
            final(self).buf == TxBuf::CONST(buf),
            final(self).pushed == buf@.len(),
            final(self).requested == buf@.len(),
            final(self).popped == 0,
            final(self).client_id == old(self).client_id,
            final(self).valid(),
    {
        self.pushed = buf.len();
        self.requested = buf.len();
        self.buf = TxBuf::CONST(buf);
        self.popped = 0;
    }

    /// Adopt an empty fillable buffer; the client will push data in before
    /// the request is dispatched.
    pub fn set_with_mut_ref(&mut self, buf: Vec<u8>)
        ensures
            final(self).buf == TxBuf::MUT(buf),
            final(self).pushed == 0,
            final(self).popped == 0,
            final(self).requested == 0,
            final(self).client_id == old(self).client_id,
            final(self).valid(),
    {
        self.buf = TxBuf::MUT(buf);
        self.pushed = 0;
        self.popped = 0;
        self.requested = 0;
    }

    /// Adopt a buffer shared in from userspace; its whole length is
    /// requested, nothing is drained yet.
    pub fn set_with_app_slice(&mut self, slice: Vec<u8>)
        ensures
            final(self).buf == TxBuf::APP_SLICE(slice),
            final(self).pushed == 0,
            final(self).popped == 0,
            final(self).requested == slice@.len(),
            final(self).client_id == old(self).client_id,
            final(self).valid(),
    {
        let default_request_length: usize = slice.len();
        self.buf = TxBuf::APP_SLICE(slice);
        self.pushed = 0;
        self.popped = 0;
        self.requested = default_request_length;
    }

    /// An empty, unassigned request.
    pub fn new() -> (r: TxRequest)
        ensures
            r.buf is NONE,
            r.pushed == 0,
            r.popped == 0,
            r.requested == 0,
            r.client_id == UNASSIGNED_CLIENT_ID,
            r.valid(),
    {
        TxRequest {
            buf: TxBuf::NONE,
            pushed: 0,
            popped: 0,
            requested: 0,
            client_id: UNASSIGNED_CLIENT_ID,
        }
    }

    /// A request carrying a prepared buffer, requested in full.
    pub fn new_with_const_ref(buf: Vec<u8>) -> (r: TxRequest)
        ensures
            r.buf == TxBuf::CONST(buf),
            r.pushed == buf@.len(),
            r.requested == buf@.len(),
            r.popped == 0,
            r.client_id == UNASSIGNED_CLIENT_ID,
            r.valid(),
    {
        let length = buf.len();
        Self::new_with_ref_set_len(TxBuf::CONST(buf), length)
    }

    /// A request carrying an empty fillable buffer.
    pub fn new_with_mut_ref(buf: Vec<u8>) -> (r: TxRequest)
        ensures
            r.buf == TxBuf::MUT(buf),
            r.pushed == 0,
            r.popped == 0,
            r.requested == 0,
            r.client_id == UNASSIGNED_CLIENT_ID,
            r.valid(),
    {
        let length = buf.len();
        Self::new_with_ref_set_len(TxBuf::MUT(buf), length)
    }

    /// Set the request length, capped at the size of the backing buffer.
    pub fn set_request_len(&mut self, length: usize)
        requires
            old(self).valid(),
        ensures
            final(self).valid(),
            final(self).buf == old(self).buf,
            final(self).pushed == old(self).pushed,
            final(self).popped == old(self).popped,
            final(self).client_id == old(self).client_id,
            final(self).requested == match old(self).buf {
                TxBuf::NONE => old(self).requested,
                _ => vstd::math::min(length as int, old(self).buf.capacity() as int) as usize,
            },
    {
        match &self.buf {
            TxBuf::MUT(buf) => {
                self.requested = if length < buf.len() {
                    length
                } else {
                    buf.len()
                };
            }
            TxBuf::CONST(buf) => {
                self.requested = if length < buf.len() {
                    length
                } else {
                    buf.len()
                };
            }
            TxBuf::APP_SLICE(s) => {
                self.requested = if length < s.len() {
                    length
                } else {
                    s.len()
                };
            }
            TxBuf::NONE => {}
        }
    }

    /// Build a request around the given storage. A prepared buffer counts
    /// as filled and requested up to `length`; the other kinds start empty
    /// (a userspace buffer requests `length` bytes up front).
    pub fn new_with_ref_set_len(buf: TxBuf, length: usize) -> (r: TxRequest)
        requires
            length <= buf.capacity(),
        ensures
            r.buf == buf,
            r.popped == 0,
            r.client_id == UNASSIGNED_CLIENT_ID,
            r.pushed == match buf {
                TxBuf::CONST(_) => length as int,
                _ => 0,
            },
            r.requested == match buf {
                TxBuf::CONST(_) => length as int,
                TxBuf::APP_SLICE(_) => length as int,
                _ => 0,
            },
            r.valid(),
    {
        match buf {
            TxBuf::CONST(b) => TxRequest {
                buf: TxBuf::CONST(b),
                pushed: length,
                requested: length,
                popped: 0,
                client_id: UNASSIGNED_CLIENT_ID,
            },
            TxBuf::MUT(b) => TxRequest {
                buf: TxBuf::MUT(b),
                pushed: 0,
                popped: 0,
                requested: 0,
                client_id: UNASSIGNED_CLIENT_ID,
            },
            TxBuf::APP_SLICE(s) => TxRequest {
                buf: TxBuf::APP_SLICE(s),
                pushed: 0,
                popped: 0,
                requested: length,
                client_id: UNASSIGNED_CLIENT_ID,
            },
            TxBuf::NONE => TxRequest {
                buf: TxBuf::NONE,
                pushed: 0,
                popped: 0,
                requested: 0,
                client_id: UNASSIGNED_CLIENT_ID,
            },
        }
    }
}

impl RxRequest {
    /// Cursors stay within the backing buffer.
    pub open spec fn valid(self) -> bool {
        &&& self.pushed <= self.buf.capacity()
        &&& self.popped <= self.buf.capacity()
        &&& self.requested <= self.buf.capacity()
    }

    /// Bytes the hardware still owes this request.
    pub open spec fn spec_remaining(self) -> int {
        self.requested - self.pushed
    }

    /// An empty, unassigned request.
    pub fn new() -> (r: RxRequest)
        ensures
            r.buf is NONE,
            r.pushed == 0,
            r.popped == 0,
            r.requested == 0,
            r.client_id == UNASSIGNED_CLIENT_ID,
            r.valid(),
    {
        RxRequest {
            buf: RxBuf::NONE,
            pushed: 0,
            popped: 0,
            requested: 0,
            client_id: UNASSIGNED_CLIENT_ID,
        }
    }

    /// A request asking the peripheral to fill the whole given buffer.
    pub fn new_with_mut_ref(buf: Vec<u8>) -> (r: RxRequest)
        ensures
            r.buf == RxBuf::MUT(buf),
            r.requested == buf@.len(),
            r.pushed == 0,
            r.popped == 0,
            r.client_id == UNASSIGNED_CLIENT_ID,
            r.valid(),
    {
        RxRequest {
            requested: buf.len(),
            buf: RxBuf::MUT(buf),
            pushed: 0,
            popped: 0,
            client_id: UNASSIGNED_CLIENT_ID,
        }
    }

    /// Adopt an empty buffer to be filled by the peripheral in full.
    pub fn set_buf(&mut self, buf: Vec<u8>)
        ensures
            final(self).buf == RxBuf::MUT(buf),
            final(self).requested == buf@.len(),
            final(self).pushed == 0,
            final(self).popped == 0,
            final(self).client_id == old(self).client_id,
            final(self).valid(),
    {
        self.requested = buf.len();
        self.buf = RxBuf::MUT(buf);
        self.pushed = 0;
        self.popped = 0;
    }

    /// Rewind the cursors and request the whole buffer again.
    pub fn reset(&mut self)
        ensures
            final(self).buf == old(self).buf,
            final(self).pushed == 0,
            final(self).popped == 0,
            final(self).client_id == old(self).client_id,
            final(self).requested == old(self).buf.capacity() as usize,
            final(self).valid(),
    {
        self.pushed = 0;
        self.popped = 0;
        match &self.buf {
            RxBuf::MUT(buf) => {
                self.requested = buf.len();
            }
            RxBuf::NONE => {
                self.requested = 0;
            }
        }
    }

    /// Whether the peripheral has pushed enough data to fulfil the request.
    pub fn request_completed(&self) -> (r: bool)
        ensures
            r == (self.pushed >= self.requested),
    {
        self.pushed >= self.requested
    }

    /// How much data has been pushed in so far.
    pub fn items_pushed(&self) -> (r: usize)
        ensures
            r == self.pushed,
    {
        self.pushed
    }

    /// Bytes the peripheral still owes this request.
    pub fn request_remaining(&self) -> (r: usize)
        requires
            self.pushed <= self.requested,
        ensures
            r == self.requested - self.pushed,
    {
        self.requested - self.pushed
    }

    /// Clear the requested length; the request no longer awaits any data.
    pub fn set_requested_len(&mut self)
        ensures
            final(self).buf == old(self).buf,
            final(self).pushed == old(self).pushed,
            final(self).popped == old(self).popped,
            final(self).client_id == old(self).client_id,
            final(self).requested == 0,
    {
        self.requested = 0;
    }

    /// Whether another byte fits into the backing buffer.
    pub fn has_room(&self) -> (r: bool)
        ensures
            r == (self.buf is MUT && self.pushed < self.buf.capacity()),
    {
        match &self.buf {
            RxBuf::MUT(buf) => self.pushed < buf.len(),
            RxBuf::NONE => false,
        }
    }

    /// Append one received byte.
    pub fn push(&mut self, element: u8)
        requires
            old(self).valid(),
            old(self).buf is MUT,
            old(self).pushed < old(self).buf.capacity(),
        ensures
            final(self).valid(),
            final(self).buf is MUT,
            final(self).buf.capacity() == old(self).buf.capacity(),
            final(self).buf.data() == old(self).buf.data().update(
                old(self).pushed as int,
                element,
            ),
            final(self).pushed == old(self).pushed + 1,
            final(self).popped == old(self).popped,
            final(self).requested == old(self).requested,
            final(self).client_id == old(self).client_id,
    {
        let cap: usize = match &self.buf {
            RxBuf::MUT(buf) => buf.len(),
            RxBuf::NONE => 0,
        };
        match &mut self.buf {
            RxBuf::MUT(buf) => {
                buf.set(self.pushed, element);
            }
            RxBuf::NONE => {}
        }
        self.pushed = self.pushed + 1;
        proof {
            assert(self.pushed <= cap);
        }
    }

    /// Read the next unread received byte and advance the drain cursor.
    pub fn pop(&mut self) -> (r: Option<u8>)
        requires
            old(self).valid(),
            old(self).popped < old(self).pushed,
        ensures
            final(self).valid(),
            r == Some(old(self).buf.data()[old(self).popped as int]),
            final(self).popped == old(self).popped + 1,
            final(self).buf == old(self).buf,
            final(self).pushed == old(self).pushed,
            final(self).requested == old(self).requested,
            final(self).client_id == old(self).client_id,
    {
        let ret = match &self.buf {
            RxBuf::MUT(s) => Some(s[self.popped]),
            RxBuf::NONE => None,
        };
        self.popped = self.popped + 1;
        ret
    }
}

} // verus!
