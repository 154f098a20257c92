//! A scripted UART client used to exercise the multiplexer from a
//! board: it greets, invites typing, and then falls back to echoing.

use crate::ikc::TxRequest;
use vstd::prelude::*;

verus! {

/// Where the script stands.
#[allow(non_camel_case_types)]
#[derive(Copy, Clone, Debug, PartialEq, Eq, Structural)]
pub enum State {
    FIRST_MSG,
    SECOND_MSG,
    ECHO,
}

/// The greeting sent first, as a specification value.
pub open spec fn spec_msg1() -> Seq<u8> {
    seq![
        72u8, 101u8, 108u8, 108u8, 111u8, 44u8, 32u8, 87u8, 111u8, 114u8, 108u8, 100u8, 33u8,
        13u8, 10u8,
    ]
}

/// The invitation sent second, as a specification value.
pub open spec fn spec_msg2() -> Seq<u8> {
    seq![
        89u8, 111u8, 117u8, 32u8, 99u8, 97u8, 110u8, 32u8, 115u8, 116u8, 97u8, 114u8, 116u8,
        32u8, 116u8, 121u8, 112u8, 105u8, 110u8, 103u8, 13u8, 10u8,
    ]
}

/// The greeting sent first.
pub fn msg1() -> (r: Vec<u8>)
    ensures
        r@ == spec_msg1(),
{
    let mut r: Vec<u8> = Vec::new();
    r.push(72);
    r.push(101);
    r.push(108);
    r.push(108);
    r.push(111);
    r.push(44);
    r.push(32);
    r.push(87);
    r.push(111);
    r.push(114);
    r.push(108);
    r.push(100);
    r.push(33);
    r.push(13);
    r.push(10);
    proof {
        assert(r@ =~= spec_msg1());
    }
    r
}

/// The invitation sent second.
pub fn msg2() -> (r: Vec<u8>)
    ensures
        r@ == spec_msg2(),
{
    let mut r: Vec<u8> = Vec::new();
    r.push(89);
    r.push(111);
    r.push(117);
    r.push(32);
    r.push(99);
    r.push(97);
    r.push(110);
    r.push(32);
    r.push(115);
    r.push(116);
    r.push(97);
    r.push(114);
    r.push(116);
    r.push(32);
    r.push(116);
    r.push(121);
    r.push(112);
    r.push(105);
    r.push(110);
    r.push(103);
    r.push(13);
    r.push(10);
    proof {
        assert(r@ =~= spec_msg2());
    }
    r
}

/// The scripted client: its state and the one transmit request it
/// cycles through the multiplexer.
pub struct TestClient {
    pub state: State,
    pub tx: Option<TxRequest>,
}

impl TestClient {
    /// Backing storage for the client's two requests, as a board would
    /// allocate it.
    pub fn space() -> (r: (Vec<u8>, TxRequest, Vec<u8>, TxRequest))
        ensures
            r.0@.len() == 1,
            r.1.buf is NONE,
            r.2@.len() == 1,
            r.3.buf is NONE,
    {
        let mut a: Vec<u8> = Vec::new();
        a.push(0);
        let mut b: Vec<u8> = Vec::new();
        b.push(0);
        (a, TxRequest::new(), b, TxRequest::new())
    }

    /// Start the script: the greeting is prepared for dispatch.
    pub fn new(space: (Vec<u8>, TxRequest, Vec<u8>, TxRequest)) -> (r: TestClient)
        ensures
            r.state == State::FIRST_MSG,
            r.tx matches Some(t) && t.buf is CONST && t.buf.data() == spec_msg1() && t.pushed
                == 15 && t.requested == 15 && t.popped == 0,
    {
        let (_tx_request_buffer, tx_request, _rx_request_buffer, _rx_request) = space;
        let mut tx_request = tx_request;
        tx_request.set_with_const_ref(msg1());
        TestClient { state: State::FIRST_MSG, tx: Some(tx_request) }
    }

    /// Whether the prepared request still has data to send.
    pub fn has_tx_request(&self) -> (r: bool)
        ensures
            r == (self.tx matches Some(t) && t.popped < t.pushed),
    {
        match &self.tx {
            Some(t) => t.has_some(),
            None => false,
        }
    }

    /// Hand the prepared request to the multiplexer.
    pub fn get_tx_request(&mut self) -> (r: Option<TxRequest>)
        ensures
            r == old(self).tx,
            final(self).tx is None,
            final(self).state == old(self).state,
    {
        self.tx.take()
    }

    /// A completed transmit comes back: after the greeting, prepare the
    /// invitation; after the invitation, settle into echoing; the
    /// request is kept for the next round either way.
    pub fn tx_request_complete(&mut self, returned_request: TxRequest)
        ensures
            old(self).state == State::FIRST_MSG ==> final(self).state == State::SECOND_MSG && (
            final(self).tx matches Some(t) && t.buf is CONST && t.buf.data() == spec_msg2()
                && t.pushed == 22 && t.requested == 22 && t.popped == 0),
            old(self).state == State::SECOND_MSG ==> final(self).state == State::ECHO && final(self).tx == Some(returned_request),
            old(self).state == State::ECHO ==> final(self).state == State::ECHO && final(self).tx
                == Some(returned_request),
    {
        let mut returned_request = returned_request;
        match self.state {
            State::FIRST_MSG => {
                returned_request.set_with_const_ref(msg2());
                self.state = State::SECOND_MSG;
            }
            State::SECOND_MSG => {
                self.state = State::ECHO;
            }
            State::ECHO => {}
        }
        self.tx = Some(returned_request);
    }
}

} // verus!
