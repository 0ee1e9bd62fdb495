//! Control-plane messaging core: a topic-tagged envelope wire format, a
//! bounded FIFO dispatch queue, and the per-connection protocol decisions of
//! the server, the client and the consumer loop.

pub mod channel;
pub mod envelope;
pub mod peers;
pub mod protocol;
