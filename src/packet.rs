use vstd::prelude::*;

use crate::codes::{opcode_of_byte, ErrorCode, Opcode};
use crate::packet::ack::TftpAck;
use crate::packet::data::TftpData;
use crate::packet::error::TftpError;

pub mod ack;
pub mod data;
pub mod error;

verus! {

/// A packet kind with a fixed wire layout. `V` is the abstract content of a
/// packet; `encoded` gives its bytes and `decoded` reads bytes back.
pub trait Packet: Sized + View {
    /// The bytes a packet with content `v` is sent as.
    spec fn encoded(v: Self::V) -> Seq<u8>;

    /// The content carried by `buf`, or `None` where `buf` is no such packet.
    spec fn decoded(buf: Seq<u8>) -> Option<Self::V>;

    /// Whether a packet with content `v` may be put on the wire.
    spec fn encodable(v: Self::V) -> bool;

    fn as_packet(&self) -> (r: Vec<u8>)
        requires
            Self::encodable(self@),
        ensures
            r@ == Self::encoded(self@),
    ;

    fn from_buffer(buf: &[u8]) -> (r: Option<Self>)
        ensures
            match r {
                Some(p) => Self::decoded(buf@) == Some(p@),
                None => Self::decoded(buf@) is None,
            },
    ;
}

/// Decoding yields no packet for a buffer too short for its opcode, for one
/// that carries another opcode, and for an ERROR buffer with nothing after
/// the code.
pub proof fn lemma_decode_rejects(buf: Seq<u8>)
    ensures
        (buf.len() < 4 || buf[0] != 0 || buf[1] != 4) ==> TftpAck::decoded(buf) is None,
        (buf.len() < 4 || buf[0] != 0 || buf[1] != 3) ==> TftpData::decoded(buf) is None,
        (buf.len() <= 4 || buf[0] != 0 || buf[1] != 5) ==> TftpError::decoded(buf) is None,
{
}

/// A receive buffer; the number of bytes actually received travels beside it.
pub type PacketBuff = [u8; 1024];

/// Whether the first `length` bytes of `packet` start with a known opcode.
pub open spec fn opcode_in(packet: Seq<u8>, length: int) -> Option<Opcode> {
    if length >= 2 && packet[0] == 0 {
        opcode_of_byte(packet[1])
    } else {
        None
    }
}

/// The opcode of a received datagram. A datagram shorter than two bytes or
/// with an unknown opcode is noise: the error carries `SilentError`, and is
/// never to be answered.
pub fn get_packet_opcode(length: usize, packet: &PacketBuff) -> (r: Result<Opcode, TftpError>)
    ensures
        match r {
            Ok(op) => opcode_in(packet@, length as int) == Some(op),
            Err(e) => opcode_in(packet@, length as int) is None && e@ == (
                ErrorCode::SilentError,
                Some("Invalid opcode"@),
            ),
        },
{
    if length < 2 || packet[0] != 0 {
        return Err(TftpError { code: ErrorCode::SilentError, message: Some("Invalid opcode".to_string()) });
    }
    match packet[1] {
        1 => Ok(Opcode::ReadRequest),
        2 => Ok(Opcode::WriteRequest),
        3 => Ok(Opcode::Data),
        4 => Ok(Opcode::Acknowledgment),
        5 => Ok(Opcode::Error),
        _ => Err(TftpError { code: ErrorCode::SilentError, message: Some("Invalid opcode".to_string()) }),
    }
}

/// The request a datagram on the listening endpoint opens: a read or write
/// request. Every other datagram there is dropped unanswered.
pub fn request_opcode(length: usize, packet: &PacketBuff) -> (r: Option<Opcode>)
    ensures
        r == match opcode_in(packet@, length as int) {
            Some(Opcode::ReadRequest) => Some(Opcode::ReadRequest),
            Some(Opcode::WriteRequest) => Some(Opcode::WriteRequest),
            _ => None,
        },
{
    match get_packet_opcode(length, packet) {
        Ok(Opcode::ReadRequest) => Some(Opcode::ReadRequest),
        Ok(Opcode::WriteRequest) => Some(Opcode::WriteRequest),
        _ => None,
    }
}

} // verus!
