//! The protocol decisions of the server's per-connection handler and of
//! the consumer loop.
//!
//! Each handler iteration is one decode-dispatch-respond cycle: classify
//! what one socket read produced, decode the bytes, forward a decoded
//! envelope to the dispatch channel, and answer with a fixed status
//! line — `"200 OK"` after a successful decode and forward, `"500
//! Internal Server Error"` after a failed decode. The consumer loop
//! recognizes one topic and hands its payload to the collaborator that
//! owns it; envelopes under any other topic are skipped, not fatal.

use vstd::prelude::*;

use crate::channel::{req_view, spec_try_enqueue, DispatchChannel};
use crate::envelope::{spec_decode, spec_encode, DecodeError, Request, RequestTopic};

verus! {

/// What one socket read produced, as the handler sees it.
pub enum ConnEvent {
    /// Zero bytes read: the peer closed the connection.
    Closed,
    /// The read itself failed.
    ReadError,
    /// A successful nonzero read of exactly these bytes.
    Received(Vec<u8>),
}

/// What the handler must do with the connection next.
pub enum ConnAction {
    /// Terminate this handler; write nothing.
    Stop,
    /// Forward the decoded envelope to the dispatch channel, then answer
    /// with the accepted status line.
    ForwardAndAccept(Request),
    /// Forward nothing; answer with the rejected status line.
    Reject,
}

/// The bytes a handler event carries, if any.
pub open spec fn ev_view(ev: ConnEvent) -> Option<Seq<u8>> {
    match ev {
        ConnEvent::Closed => None,
        ConnEvent::ReadError => None,
        ConnEvent::Received(b) => Some(b@),
    }
}

/// A handler's whole effect on the shared queue, and the response it
/// writes, for one event. A closed or failed connection touches nothing
/// and answers nothing; received bytes either decode — the envelope
/// joins the queue (the send waits for room rather than fail, so at this
/// level it appends) and the accepted line is written — or they do not,
/// and only the rejected line is written.
pub open spec fn spec_conn_effect(q: Seq<(RequestTopic, Seq<u8>)>, ev: Option<Seq<u8>>) -> (
    Seq<(RequestTopic, Seq<u8>)>,
    Option<Seq<char>>,
) {
    match ev {
        None => (q, None),
        Some(bytes) => match spec_decode(bytes) {
            Some(p) => (q.push(p), Some("200 OK"@)),
            None => (q, Some("500 Internal Server Error"@)),
        },
    }
}

/// Status law: over a live connection, an encoded envelope is answered
/// `"200 OK"` and exactly that envelope reaches the queue; bytes that
/// encode no envelope are answered `"500 Internal Server Error"` and the
/// queue receives nothing.
pub proof fn lemma_status_contract(
    q: Seq<(RequestTopic, Seq<u8>)>,
    t: RequestTopic,
    data: Seq<u8>,
    junk: Seq<u8>,
)
    requires
        data.len() <= u64::MAX,
        forall|t2: RequestTopic, d2: Seq<u8>| #[trigger] spec_encode(t2, d2) != junk,
    ensures
        spec_conn_effect(q, Some(spec_encode(t, data))) == (q.push((t, data)), Some("200 OK"@)),
        spec_conn_effect(q, Some(junk)) == (q, Some("500 Internal Server Error"@)),
{
    crate::envelope::lemma_encode_decodes(t, data);
    if spec_decode(junk) is Some {
        crate::envelope::lemma_decode_sound(junk);
        let p = spec_decode(junk)->Some_0;
        assert(spec_encode(p.0, p.1) == junk);
    }
}

/// Isolation law: a handler that stops on a closed or failed connection
/// writes no response and leaves the shared queue exactly as it was, so
/// any other handler's cycle, interleaved after it, comes out as if the
/// failed handler had never run.
pub proof fn lemma_isolation(q: Seq<(RequestTopic, Seq<u8>)>, ev: Option<Seq<u8>>)
    ensures
        spec_conn_effect(q, None) == (q, None::<Seq<char>>),
        spec_conn_effect(spec_conn_effect(q, None).0, ev) == spec_conn_effect(q, ev),
{
}

/// Decides one handler iteration from what the read produced: stop on a
/// closed or failed connection; on received bytes, forward-and-accept
/// exactly when they decode, else reject.
pub fn handler_step(ev: ConnEvent) -> (a: ConnAction)
    ensures
        match a {
            ConnAction::Stop => ev_view(ev) is None,
            ConnAction::ForwardAndAccept(req) => ev_view(ev) matches Some(b) && spec_decode(b)
                == Some(req_view(req)),
            ConnAction::Reject => ev_view(ev) matches Some(b) && spec_decode(b) is None,
        },
{
    match ev {
        ConnEvent::Closed => ConnAction::Stop,
        ConnEvent::ReadError => ConnAction::Stop,
        ConnEvent::Received(b) => match Request::from_bytes(b.as_slice()) {
            Ok(req) => ConnAction::ForwardAndAccept(req),
            Err(_) => ConnAction::Reject,
        },
    }
}

/// The fixed ASCII status line for an accepted or a rejected frame.
pub fn status_line(accepted: bool) -> (s: &'static str)
    ensures
        accepted ==> s@ == "200 OK"@,
        !accepted ==> s@ == "500 Internal Server Error"@,
{
    if accepted {
        "200 OK"
    } else {
        "500 Internal Server Error"
    }
}

/// What one decode-dispatch cycle did with received bytes.
pub enum FrameOutcome {
    /// The bytes decoded and the envelope was enqueued; answer accepted.
    Accepted,
    /// The bytes decoded but the channel is at capacity; this producer
    /// must wait for the consumer before forwarding the envelope.
    MustWait(Request),
    /// The bytes did not decode; nothing was forwarded; answer rejected.
    Rejected(DecodeError),
}

/// Runs one decode-dispatch cycle of the per-connection handler against
/// the dispatch channel: the envelope encoded by `bytes`, and only it,
/// is enqueued, and only when there is room.
pub fn process_frame(chan: &mut DispatchChannel, bytes: &[u8]) -> (out: FrameOutcome)
    requires
        old(chan).well_formed(),
    ensures
        final(chan).well_formed(),
        final(chan).cap() == old(chan).cap(),
        match out {
            FrameOutcome::Accepted => {
                &&& spec_decode(bytes@) is Some
                &&& (true, final(chan).contents()) == spec_try_enqueue(
                    old(chan).contents(),
                    old(chan).cap(),
                    spec_decode(bytes@)->Some_0,
                )
            },
            FrameOutcome::MustWait(req) => {
                &&& spec_decode(bytes@) == Some(req_view(req))
                &&& old(chan).contents().len() >= old(chan).cap()
                &&& final(chan).contents() == old(chan).contents()
            },
            FrameOutcome::Rejected(e) => {
                &&& spec_decode(bytes@) is None
                &&& e == crate::envelope::spec_decode_err(bytes@)
                &&& final(chan).contents() == old(chan).contents()
            },
        },
{
    match Request::from_bytes(bytes) {
        Ok(req) => {
            if chan.is_full() {
                FrameOutcome::MustWait(req)
            } else {
                let ok = chan.try_enqueue(req);
                assert(ok);
                FrameOutcome::Accepted
            }
        },
        Err(e) => FrameOutcome::Rejected(e),
    }
}

/// The consumer's decision for one dequeued envelope.
pub enum DispatchDecision {
    /// The topic is the one this consumer recognizes: hand the payload
    /// to the collaborator that owns it.
    Invoke(Vec<u8>),
    /// Any other topic: log and skip; the loop continues.
    Skip,
}

/// Matches one dequeued envelope against the topic this consumer
/// recognizes: the collaborator is invoked on exactly the payloads of
/// envelopes under that topic; everything else is skipped.
pub fn consumer_decision(recognized: RequestTopic, req: Request) -> (d: DispatchDecision)
    ensures
        req.topic == recognized ==> (d matches DispatchDecision::Invoke(p) && p@ == req.data@),
        req.topic != recognized ==> d == DispatchDecision::Skip,
{
    if req.topic == recognized {
        DispatchDecision::Invoke(req.data)
    } else {
        DispatchDecision::Skip
    }
}

/// One iteration of the consumer loop: dequeues the front envelope, if
/// any, and decides what to do with it. `None` only when the channel is
/// empty and the consumer must wait for a producer.
pub fn consumer_step(chan: &mut DispatchChannel, recognized: RequestTopic) -> (r: Option<
    DispatchDecision,
>)
    requires
        old(chan).well_formed(),
    ensures
        final(chan).well_formed(),
        final(chan).cap() == old(chan).cap(),
        match r {
            None => old(chan).contents().len() == 0 && final(chan).contents() == old(
                chan,
            ).contents(),
            Some(d) => {
                &&& old(chan).contents().len() > 0
                &&& final(chan).contents() == crate::channel::spec_dequeue(
                    old(chan).contents(),
                ).1
                &&& ({
                    let front = crate::channel::spec_dequeue(old(chan).contents()).0->Some_0;
                    if front.0 == recognized {
                        d matches DispatchDecision::Invoke(p) && p@ == front.1
                    } else {
                        d == DispatchDecision::Skip
                    }
                })
            },
        },
{
    match chan.dequeue() {
        None => None,
        Some(req) => Some(consumer_decision(recognized, req)),
    }
}

} // verus!
