//! Line-echo client of the UART: every received byte is sent back, and
//! a carriage return is echoed with a line feed appended, so a terminal
//! pressing enter sees the cursor move to a fresh line.

use crate::ikc::RxRequest;
use vstd::prelude::*;

verus! {

/// How many bytes one receive request asks for: the echo turns each
/// byte around as it arrives.
pub const MAX_PAYLOAD: usize = 1;

/// What the echo sends back for the received bytes: each byte as it
/// came, with a line feed appended after every carriage return.
pub open spec fn echoed(s: Seq<u8>) -> Seq<u8>
    decreases s.len(),
{
    if s.len() == 0 {
        Seq::<u8>::empty()
    } else {
        echoed(s.drop_last()) + (if s.last() == 13u8 {
            seq![13u8, 10u8]
        } else {
            seq![s.last()]
        })
    }
}

/// The echo client: its transmit scratch buffer must outsize the
/// receive buffer, since an echoed line can grow by the appended line
/// feeds.
pub struct UartEcho {
    pub baud: u32,
    pub tx_buf: Option<Vec<u8>>,
    pub rx_buf: Option<Vec<u8>>,
}

impl UartEcho {
    /// Wrap the two scratch buffers. The transmit buffer must be larger
    /// than the receive buffer or an echoed carriage return could not
    /// fit.
    pub fn new(tx_buf: Vec<u8>, rx_buf: Vec<u8>) -> (r: UartEcho)
        requires
            tx_buf@.len() > rx_buf@.len(),
        ensures
            r.baud == 115200,
            r.tx_buf == Some(tx_buf),
            r.rx_buf == Some(rx_buf),
    {
        UartEcho { baud: 115200, tx_buf: Some(tx_buf), rx_buf: Some(rx_buf) }
    }

    /// Arm the first receive: the scratch receive buffer goes out as a
    /// request for one byte. Nothing happens if the buffer is already
    /// out or cannot hold a byte.
    pub fn initialize(&mut self) -> (r: Option<RxRequest>)
        ensures
            final(self).tx_buf == old(self).tx_buf,
            final(self).baud == old(self).baud,
            (r is Some <==> (old(self).rx_buf matches Some(b) && b@.len() >= MAX_PAYLOAD)),
            r is Some ==> final(self).rx_buf is None,
            r is None ==> final(self).rx_buf == old(self).rx_buf,
            r matches Some(req) ==> req.requested == MAX_PAYLOAD && req.pushed == 0 && req.popped
                == 0 && req.buf.capacity() == old(self).rx_buf->Some_0@.len(),
    {
        let buf = self.rx_buf.take();
        match buf {
            Some(b) => {
                if b.len() < MAX_PAYLOAD {
                    self.rx_buf = Some(b);
                    return None;
                }
                let mut req = RxRequest::new_with_mut_ref(b);
                req.requested = MAX_PAYLOAD;
                Some(req)
            }
            None => None,
        }
    }

    /// Turn received bytes around: the echo output carries every byte
    /// in order, with a line feed appended after each carriage return.
    pub fn received_buffer(&self, buffer: &Vec<u8>, rx_len: usize) -> (out: Vec<u8>)
        requires
            rx_len <= buffer@.len(),
        ensures
            out@ == echoed(buffer@.take(rx_len as int)),
    {
        let mut out: Vec<u8> = Vec::new();
        let mut n: usize = 0;
        proof {
            assert(buffer@.take(0) =~= Seq::<u8>::empty());
        }
        while n < rx_len
            invariant
                n <= rx_len,
                rx_len <= buffer@.len(),
                out@ == echoed(buffer@.take(n as int)),
            decreases rx_len - n,
        {
            let b = buffer[n];
            out.push(b);
            if b == 13u8 {
                out.push(10u8);
            }
            proof {
                assert(buffer@.take(n + 1).drop_last() =~= buffer@.take(n as int));
                assert(buffer@.take(n + 1).last() == buffer@[n as int]);
            }
            n = n + 1;
        }
        proof {
            assert(buffer@.take(rx_len as int) == buffer@.take(n as int));
        }
        out
    }
}

} // verus!
