//! Connection establishment for an HTTP/3 client: destination handling,
//! candidate addresses, and the decisions of a sequential connect attempt.

pub mod address;
pub mod attempt;
pub mod connector;
mod external;
pub mod laws;

pub use address::{
    bind_address, effective_port, normalize_host, with_port, IpAddress, SocketAddress,
    DEFAULT_PORT,
};
pub use attempt::{Action, Attempt, ConnectError, Event, Stage};
pub use connector::H3Connector;
