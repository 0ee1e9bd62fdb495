use chuck::envelope::{DecodeError, Request, RequestTopic, DEFAULT_SERVICE_BUFFER_SIZE, HEADER_LEN};

fn round_trip(topic: RequestTopic, data: Vec<u8>) {
    let req = Request::new(topic, data);
    let bytes = req.as_bytes();
    let back = Request::from_bytes(&bytes).expect("a fresh encoding must decode");
    assert_eq!(back, req);
}

#[test]
fn round_trip_both_topics() {
    round_trip(RequestTopic::MemesyncTicket, vec![1, 2, 3]);
    round_trip(RequestTopic::CidRequest, vec![255, 0, 128]);
}

#[test]
fn round_trip_empty_payload() {
    round_trip(RequestTopic::MemesyncTicket, Vec::new());
}

#[test]
fn round_trip_payload_at_buffer_bound() {
    let data = vec![0xAB; DEFAULT_SERVICE_BUFFER_SIZE - HEADER_LEN];
    let req = Request::new(RequestTopic::CidRequest, data);
    let bytes = req.as_bytes();
    assert_eq!(bytes.len(), DEFAULT_SERVICE_BUFFER_SIZE);
    assert_eq!(Request::from_bytes(&bytes).unwrap(), req);
}

#[test]
fn encoding_is_exact() {
    let req = Request::new(RequestTopic::CidRequest, vec![7, 8]);
    assert_eq!(req.as_bytes(), vec![1, 0, 0, 0, 2, 0, 0, 0, 0, 0, 0, 0, 7, 8]);
    let req = Request::new(RequestTopic::MemesyncTicket, vec![42]);
    assert_eq!(req.as_bytes(), vec![0, 0, 0, 0, 1, 0, 0, 0, 0, 0, 0, 0, 42]);
}

#[test]
fn wire_format_matches_bincode() {
    // The wire format is the one the peer processes already speak:
    // bincode's fixed-width little-endian encoding of a (variant, bytes)
    // pair.
    let data = vec![9u8, 8, 7, 6];
    let req = Request::new(RequestTopic::CidRequest, data.clone());
    let expected = bincode::serialize(&(1u32, data)).unwrap();
    assert_eq!(req.as_bytes(), expected);

    let data = vec![1u8; 300];
    let req = Request::new(RequestTopic::MemesyncTicket, data.clone());
    let expected = bincode::serialize(&(0u32, data)).unwrap();
    assert_eq!(req.as_bytes(), expected);

    let decoded = Request::from_bytes(&bincode::serialize(&(0u32, vec![5u8, 6])).unwrap()).unwrap();
    assert_eq!(decoded.topic, RequestTopic::MemesyncTicket);
    assert_eq!(decoded.data, vec![5, 6]);
}

#[test]
fn truncation_is_rejected() {
    let req = Request::new(RequestTopic::MemesyncTicket, vec![1, 2, 3]);
    let bytes = req.as_bytes();
    assert_eq!(Request::from_bytes(&bytes[..1]), Err(DecodeError::Truncated));
    assert_eq!(Request::from_bytes(&[]), Err(DecodeError::Truncated));
    assert_eq!(Request::from_bytes(&bytes[..HEADER_LEN - 1]), Err(DecodeError::Truncated));
}

#[test]
fn unknown_topic_is_rejected() {
    let mut bytes = Request::new(RequestTopic::MemesyncTicket, vec![9]).as_bytes();
    bytes[0] = 2;
    assert_eq!(Request::from_bytes(&bytes), Err(DecodeError::UnknownTopic));
    bytes[3] = 0x80;
    assert_eq!(Request::from_bytes(&bytes), Err(DecodeError::UnknownTopic));
}

#[test]
fn length_mismatch_is_rejected() {
    let req = Request::new(RequestTopic::CidRequest, vec![1, 2, 3, 4]);
    let bytes = req.as_bytes();
    // A frame cut short after the header, and one with trailing garbage.
    assert_eq!(Request::from_bytes(&bytes[..bytes.len() - 1]), Err(DecodeError::LengthMismatch));
    let mut longer = bytes.clone();
    longer.push(0);
    assert_eq!(Request::from_bytes(&longer), Err(DecodeError::LengthMismatch));
}

#[test]
fn arbitrary_junk_is_rejected() {
    // Ten bytes that form no valid envelope.
    let junk = [3u8, 1, 4, 1, 5, 9, 2, 6, 5, 3];
    assert!(Request::from_bytes(&junk).is_err());
}
