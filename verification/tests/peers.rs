use chuck::peers::{Client, MemesyncReceiver, MemesyncSender};

#[test]
fn client_keeps_its_host() {
    let c = Client::new(String::from("127.0.0.1:10001"));
    assert_eq!(c.host(), "127.0.0.1:10001");
}

#[test]
fn receiver_keeps_its_port() {
    let r = MemesyncReceiver::new(9991);
    assert_eq!(r.port(), 9991);
}

#[test]
fn sender_keeps_its_target() {
    let s = MemesyncSender::new(String::from("peer.example:10001"));
    assert_eq!(s.target_host(), "peer.example:10001");
}
