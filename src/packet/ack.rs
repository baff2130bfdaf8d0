use vstd::prelude::*;

use crate::packet::Packet;

verus! {

/// Acknowledges the data block `number` (or, with 0, a write request).
#[derive(Debug, Clone, Copy, PartialEq, Eq, Structural)]
pub struct TftpAck {
    pub number: u16,
}

impl View for TftpAck {
    type V = u16;

    open spec fn view(&self) -> u16 {
        self.number
    }
}

/// The high and low byte of a block number.
pub open spec fn be_bytes(n: u16) -> Seq<u8> {
    seq![(n / 256) as u8, (n % 256) as u8]
}

/// The block number held big-endian in two bytes.
pub open spec fn be_value(hi: u8, lo: u8) -> u16 {
    (hi as int * 256 + lo as int) as u16
}

/// Splits a block number into its big-endian bytes.
pub fn split_number(n: u16) -> (r: (u8, u8))
    ensures
        seq![r.0, r.1] == be_bytes(n),
        be_value(r.0, r.1) == n,
{
    ((n / 256) as u8, (n % 256) as u8)
}

/// Joins two big-endian bytes into a block number.
pub fn join_number(hi: u8, lo: u8) -> (r: u16)
    ensures
        r == be_value(hi, lo),
        be_bytes(r) == seq![hi, lo],
{
    assert(hi as int * 256 + lo as int <= 65535) by (nonlinear_arith)
        requires hi <= 255, lo <= 255;
    hi as u16 * 256 + lo as u16
}

impl Packet for TftpAck {
    open spec fn encoded(v: u16) -> Seq<u8> {
        seq![0u8, 4u8] + be_bytes(v)
    }

    open spec fn decoded(buf: Seq<u8>) -> Option<u16> {
        if buf.len() == 4 && buf[0] == 0 && buf[1] == 4 {
            Some(be_value(buf[2], buf[3]))
        } else {
            None
        }
    }

    open spec fn encodable(v: u16) -> bool {
        true
    }

    fn as_packet(&self) -> (r: Vec<u8>) {
        let (hi, lo) = split_number(self.number);
        let r = vec![0u8, 4u8, hi, lo];
        assert(r@ =~= seq![0u8, 4u8] + be_bytes(self.number));
        r
    }

    fn from_buffer(buf: &[u8]) -> (r: Option<TftpAck>) {
        if buf.len() != 4 {
            None
        } else if buf[0] != 0u8 || buf[1] != 4u8 {
            None
        } else {
            Some(TftpAck { number: join_number(buf[2], buf[3]) })
        }
    }
}

/// Decoding the bytes of an acknowledgement gives that acknowledgement back.
pub proof fn lemma_ack_round_trip(a: TftpAck)
    ensures
        TftpAck::decoded(TftpAck::encoded(a@)) == Some(a@),
{
    let b = TftpAck::encoded(a@);
    assert(b[2] == be_bytes(a.number)[0] && b[3] == be_bytes(a.number)[1]);
}

} // verus!
