//! A TFTP (RFC 1350) protocol engine: the wire codec, request parsing and
//! the per-transfer state machines that turn a lossy datagram channel into an
//! ordered, exactly-once byte stream.

pub mod codes;
pub mod config;
pub mod packet;
pub mod request;
pub mod transfer;
