use chuck::channel::{DispatchChannel, DEFAULT_CHANNEL_CAPACITY};
use chuck::envelope::{Request, RequestTopic};
use chuck::protocol::{
    consumer_decision, consumer_step, handler_step, process_frame, status_line, ConnAction,
    ConnEvent, DispatchDecision, FrameOutcome,
};

#[test]
fn status_lines_are_fixed() {
    assert_eq!(status_line(true), "200 OK");
    assert_eq!(status_line(false), "500 Internal Server Error");
}

#[test]
fn fifo_order_across_producers() {
    // Handler A enqueues X before handler B enqueues Y: the consumer
    // sees X first.
    let mut chan = DispatchChannel::new(DEFAULT_CHANNEL_CAPACITY);
    let x = Request::new(RequestTopic::MemesyncTicket, vec![1]);
    let y = Request::new(RequestTopic::CidRequest, vec![2]);
    assert!(chan.try_enqueue(x.clone()));
    assert!(chan.try_enqueue(y.clone()));
    assert_eq!(chan.dequeue(), Some(x));
    assert_eq!(chan.dequeue(), Some(y));
    assert_eq!(chan.dequeue(), None);
}

#[test]
fn backpressure_at_capacity() {
    let mut chan = DispatchChannel::new(2);
    let a = Request::new(RequestTopic::MemesyncTicket, vec![1]);
    let b = Request::new(RequestTopic::MemesyncTicket, vec![2]);
    let c = Request::new(RequestTopic::MemesyncTicket, vec![3]);
    assert!(chan.try_enqueue(a.clone()));
    assert!(chan.try_enqueue(b.clone()));
    // Full: the attempt must wait, and neither drops nor displaces.
    assert!(!chan.try_enqueue(c.clone()));
    assert_eq!(chan.len(), 2);
    // The consumer drains one entry; the attempt now proceeds.
    assert_eq!(chan.dequeue(), Some(a));
    assert!(chan.try_enqueue(c.clone()));
    assert_eq!(chan.dequeue(), Some(b));
    assert_eq!(chan.dequeue(), Some(c));
}

#[test]
fn handler_stops_on_closed_or_failed_reads() {
    assert!(matches!(handler_step(ConnEvent::Closed), ConnAction::Stop));
    assert!(matches!(handler_step(ConnEvent::ReadError), ConnAction::Stop));
}

#[test]
fn handler_forwards_valid_frames() {
    let req = Request::new(RequestTopic::CidRequest, vec![4, 5]);
    match handler_step(ConnEvent::Received(req.as_bytes())) {
        ConnAction::ForwardAndAccept(got) => assert_eq!(got, req),
        _ => panic!("a valid frame must be forwarded and accepted"),
    }
}

#[test]
fn handler_rejects_invalid_frames() {
    match handler_step(ConnEvent::Received(vec![1, 2, 3])) {
        ConnAction::Reject => {}
        _ => panic!("an invalid frame must be rejected"),
    }
}

#[test]
fn valid_envelope_reaches_consumer() {
    // A client frames 42 payload bytes under the content-locator topic;
    // the handler accepts, answers "200 OK", and the consumer receives
    // exactly that envelope.
    let payload: Vec<u8> = (0..42).collect();
    let req = Request::new(RequestTopic::CidRequest, payload.clone());
    let wire = req.as_bytes();

    let mut chan = DispatchChannel::new(DEFAULT_CHANNEL_CAPACITY);
    match process_frame(&mut chan, &wire) {
        FrameOutcome::Accepted => {}
        _ => panic!("a valid frame within capacity must be accepted"),
    }
    assert_eq!(status_line(true), "200 OK");
    assert_eq!(chan.len(), 1);

    match consumer_step(&mut chan, RequestTopic::CidRequest) {
        Some(DispatchDecision::Invoke(p)) => assert_eq!(p, payload),
        _ => panic!("the consumer must be handed the payload"),
    }
    assert_eq!(chan.len(), 0);
}

#[test]
fn invalid_bytes_reach_nothing() {
    // Ten bytes that form no envelope: the handler answers "500
    // Internal Server Error" and the channel receives nothing.
    let junk = vec![9u8, 9, 9, 9, 9, 9, 9, 9, 9, 9];
    let mut chan = DispatchChannel::new(DEFAULT_CHANNEL_CAPACITY);
    match process_frame(&mut chan, &junk) {
        FrameOutcome::Rejected(_) => {}
        _ => panic!("junk must be rejected"),
    }
    assert_eq!(status_line(false), "500 Internal Server Error");
    assert_eq!(chan.len(), 0);
    assert!(matches!(consumer_step(&mut chan, RequestTopic::CidRequest), None));
}

#[test]
fn full_channel_makes_producer_wait() {
    let mut chan = DispatchChannel::new(1);
    let first = Request::new(RequestTopic::MemesyncTicket, vec![1]).as_bytes();
    let second = Request::new(RequestTopic::MemesyncTicket, vec![2]).as_bytes();
    assert!(matches!(process_frame(&mut chan, &first), FrameOutcome::Accepted));
    match process_frame(&mut chan, &second) {
        FrameOutcome::MustWait(req) => assert_eq!(req.data, vec![2]),
        _ => panic!("a full channel must make the producer wait"),
    }
    assert_eq!(chan.len(), 1);
}

#[test]
fn consumer_skips_unrecognized_topics() {
    let ticket = Request::new(RequestTopic::MemesyncTicket, vec![1, 2]);
    match consumer_decision(RequestTopic::CidRequest, ticket) {
        DispatchDecision::Skip => {}
        _ => panic!("a topic this consumer does not own must be skipped"),
    }
    let locator = Request::new(RequestTopic::CidRequest, vec![3]);
    match consumer_decision(RequestTopic::CidRequest, locator) {
        DispatchDecision::Invoke(p) => assert_eq!(p, vec![3]),
        _ => panic!("the owned topic must be invoked"),
    }
}
