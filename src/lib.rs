//! A UDP transport for DNS queries.
//!
//! The transport decides everything about one request/response exchange,
//! where to connect, which bytes go out, which bytes are decoded, and which
//! failure ends the exchange, while the socket operations themselves are
//! carried out by the caller, step by step, as the exchange asks for them.
pub mod exchange;
pub mod udp;

pub use exchange::{Action, Error, Event, Exchange, IoStep, Stage, RECV_BUFFER_LEN};
pub use udp::{destination_for, Destination, UdpTransport, DNS_PORT};
