//! A SOCKS5 proxy core: greeting negotiation, request parsing, target
//! construction and the per-connection session state machine. Sockets,
//! name resolution and the byte relay are driven by the caller.
pub mod request;
pub mod session;
pub mod target;
pub mod wire;
