//! The RPC engine: two symmetric roles over one framed, handle-capable
//! duplex transport. The caller role sends one request and blocks until
//! exactly one response is read back; no second request leaves before the
//! first's response (or a terminal error) is observed. The server role
//! accepts successive requests and writes each response back in arrival
//! order: responses are never reordered relative to requests.

use vstd::prelude::*;

verus! {

/// The caller role of one connection. At most one request is outstanding
/// at a time; the history records every completed exchange in order.
pub struct RpcCaller<Req, Resp> {
    awaiting: bool,
    history: Ghost<Seq<(Req, Resp)>>,
    outstanding: Ghost<Option<Req>>,
}

impl<Req, Resp> RpcCaller<Req, Resp> {
    /// Exactly one request is outstanding while the caller awaits.
    pub open spec fn inv(&self) -> bool {
        self.is_awaiting() <==> self.spec_outstanding() is Some
    }

    /// Whether a request has been sent whose response is still owed.
    pub closed spec fn is_awaiting(&self) -> bool {
        self.awaiting
    }

    /// The request in flight, if any.
    pub closed spec fn spec_outstanding(&self) -> Option<Req> {
        self.outstanding@
    }

    /// Every completed exchange, oldest first: the i-th entry pairs the
    /// i-th request sent with the i-th response received.
    pub closed spec fn spec_history(&self) -> Seq<(Req, Resp)> {
        self.history@
    }

    /// Every request sent so far, oldest first.
    pub open spec fn spec_requests(&self) -> Seq<Req> {
        let done = Seq::new(self.spec_history().len(), |i: int| self.spec_history()[i].0);
        match self.spec_outstanding() {
            Some(req) => done.push(req),
            None => done,
        }
    }

    /// Every response received so far, oldest first.
    pub open spec fn spec_responses(&self) -> Seq<Resp> {
        Seq::new(self.spec_history().len(), |i: int| self.spec_history()[i].1)
    }

    /// Whether a response is still owed.
    pub fn awaiting(&self) -> (r: bool)
        ensures
            r == self.is_awaiting(),
    {
        self.awaiting
    }

    /// A fresh caller with nothing sent and nothing owed.
    pub fn new() -> (r: RpcCaller<Req, Resp>)
        ensures
            r.inv(),
            !r.is_awaiting(),
            r.spec_history() =~= Seq::<(Req, Resp)>::empty(),
    {
        RpcCaller { awaiting: false, history: Ghost(Seq::empty()), outstanding: Ghost(None) }
    }

    /// Records that `req` has been handed to the transport. Refused while
    /// a response is still owed: the connection supports no pipelining.
    pub fn send_request(&mut self, req: &Req)
        requires
            old(self).inv(),
            !old(self).is_awaiting(),
        ensures
            final(self).inv(),
            final(self).is_awaiting(),
            final(self).spec_outstanding() == Some(*req),
            final(self).spec_history() == old(self).spec_history(),
            final(self).spec_requests() =~= old(self).spec_requests().push(*req),
            final(self).spec_responses() == old(self).spec_responses(),
    {
        self.awaiting = true;
        proof {
            self.outstanding@ = Some(*req);
        }
    }

    /// Records that the transport delivered `resp`: it completes the one
    /// outstanding request, and the caller may send again.
    pub fn recv_response(&mut self, resp: &Resp)
        requires
            old(self).inv(),
            old(self).is_awaiting(),
        ensures
            final(self).inv(),
            !final(self).is_awaiting(),
            final(self).spec_history() =~= old(self).spec_history().push(
                (old(self).spec_outstanding().unwrap(), *resp),
            ),
            final(self).spec_requests() =~= old(self).spec_requests(),
            final(self).spec_responses() =~= old(self).spec_responses().push(*resp),
    {
        self.awaiting = false;
        proof {
            self.history@ = self.history@.push((self.outstanding@.unwrap(), *resp));
            self.outstanding@ = None;
        }
    }

    /// The call in flight observes a closed or cancelled connection
    /// instead of a response: the exchange ends with no response recorded
    /// for it, and the caller's blocked thread is released.
    pub fn cancel(&mut self)
        requires
            old(self).inv(),
        ensures
            final(self).inv(),
            !final(self).is_awaiting(),
            final(self).spec_history() == old(self).spec_history(),
    {
        self.awaiting = false;
        proof {
            self.outstanding@ = None;
        }
    }
}

/// Request/response pairing on the caller role: the number of responses
/// never exceeds the number of requests (no response is received before
/// its request is sent), and the i-th response received pairs with the
/// i-th request sent.
pub proof fn lemma_request_response_pairing<Req, Resp>(c: RpcCaller<Req, Resp>)
    requires
        c.inv(),
    ensures
        c.spec_responses().len() <= c.spec_requests().len(),
        forall|i: int|
            0 <= i < c.spec_responses().len() ==> #[trigger] c.spec_responses()[i]
                == c.spec_history()[i].1 && c.spec_requests()[i] == c.spec_history()[i].0,
{
}

/// The server role of one connection. A handler may complete its work
/// asynchronously, but responses are written back in the order the
/// requests arrived.
pub struct RpcServer<Req, Resp> {
    in_flight: Vec<Req>,
    received: Ghost<Seq<Req>>,
    answered: Ghost<Seq<(Req, Resp)>>,
}

impl<Req, Resp> RpcServer<Req, Resp> {
    /// Requests still awaiting their response, oldest first.
    pub closed spec fn spec_in_flight(&self) -> Seq<Req> {
        self.in_flight@
    }

    /// Every request that has arrived, oldest first.
    pub closed spec fn spec_received(&self) -> Seq<Req> {
        self.received@
    }

    /// Every exchange already answered, oldest first.
    pub closed spec fn spec_answered(&self) -> Seq<(Req, Resp)> {
        self.answered@
    }

    /// The requests already answered, oldest first.
    pub open spec fn spec_answered_requests(&self) -> Seq<Req> {
        Seq::new(self.spec_answered().len(), |i: int| self.spec_answered()[i].0)
    }

    /// What arrived is exactly what was answered followed by what is still
    /// in flight: responses leave in arrival order.
    pub open spec fn inv(&self) -> bool {
        self.spec_received() =~= self.spec_answered_requests() + self.spec_in_flight()
    }

    /// How many requests still await their response.
    pub fn in_flight_count(&self) -> (r: usize)
        ensures
            r == self.spec_in_flight().len(),
    {
        self.in_flight.len()
    }

    /// A fresh server with nothing received.
    pub fn new() -> (r: RpcServer<Req, Resp>)
        ensures
            r.inv(),
            r.spec_received() =~= Seq::<Req>::empty(),
            r.spec_answered() =~= Seq::<(Req, Resp)>::empty(),
            r.spec_in_flight() =~= Seq::<Req>::empty(),
    {
        RpcServer {
            in_flight: Vec::new(),
            received: Ghost(Seq::empty()),
            answered: Ghost(Seq::empty()),
        }
    }

    /// Accepts the next request frame read off the transport.
    pub fn on_request(&mut self, req: Req)
        requires
            old(self).inv(),
        ensures
            final(self).inv(),
            final(self).spec_received() =~= old(self).spec_received().push(req),
            final(self).spec_in_flight() =~= old(self).spec_in_flight().push(req),
            final(self).spec_answered() == old(self).spec_answered(),
    {
        proof {
            self.received@ = self.received@.push(req);
        }
        self.in_flight.push(req);
    }

    /// Writes the response to the oldest unanswered request back to the
    /// transport, and returns that request: whatever order handlers
    /// complete in, responses leave in arrival order.
    pub fn respond_next(&mut self, resp: &Resp) -> (r: Req)
        requires
            old(self).inv(),
            old(self).spec_in_flight().len() > 0,
        ensures
            final(self).inv(),
            r == old(self).spec_in_flight()[0],
            final(self).spec_in_flight() =~= old(self).spec_in_flight().drop_first(),
            final(self).spec_answered() =~= old(self).spec_answered().push((r, *resp)),
            final(self).spec_received() == old(self).spec_received(),
    {
        let req = self.in_flight.remove(0);
        proof {
            self.answered@ = self.answered@.push((req, *resp));
            assert(self.in_flight@ =~= old(self).spec_in_flight().drop_first());
        }
        req
    }
}

/// In-order dispatch on the server role: the i-th response written back
/// answers the i-th request that arrived.
pub proof fn lemma_server_in_order<Req, Resp>(s: RpcServer<Req, Resp>)
    requires
        s.inv(),
    ensures
        s.spec_answered().len() <= s.spec_received().len(),
        forall|i: int|
            0 <= i < s.spec_answered().len() ==> #[trigger] s.spec_answered()[i].0
                == s.spec_received()[i],
{
    assert forall|i: int| 0 <= i < s.spec_answered().len() implies #[trigger] s.spec_answered()[i].0
        == s.spec_received()[i] by {
        assert(s.spec_received()[i] == (s.spec_answered_requests() + s.spec_in_flight())[i]);
    }
}

} // verus!
