use vstd::prelude::*;
use vstd::slice::{slice_subrange, slice_to_vec};

use crate::packet::Packet;
use crate::packet::ack::{be_bytes, be_value, join_number, split_number};

verus! {

/// The largest payload a DATA packet carries; a shorter one ends a transfer.
pub const MAX_DATA_SIZE: usize = 512;

/// One block of file content.
#[derive(Debug, PartialEq, Eq)]
pub struct TftpData {
    pub number: u16,
    pub data: Vec<u8>,
}

impl View for TftpData {
    type V = (u16, Seq<u8>);

    open spec fn view(&self) -> (u16, Seq<u8>) {
        (self.number, self.data@)
    }
}

impl Packet for TftpData {
    open spec fn encoded(v: (u16, Seq<u8>)) -> Seq<u8> {
        seq![0u8, 3u8] + be_bytes(v.0) + v.1
    }

    /// A DATA datagram has a four byte header and at most 512 payload bytes.
    open spec fn decoded(buf: Seq<u8>) -> Option<(u16, Seq<u8>)> {
        if 4 <= buf.len() <= 4 + MAX_DATA_SIZE && buf[0] == 0 && buf[1] == 3 {
            Some((be_value(buf[2], buf[3]), buf.subrange(4, buf.len() as int)))
        } else {
            None
        }
    }

    open spec fn encodable(v: (u16, Seq<u8>)) -> bool {
        true
    }

    fn as_packet(&self) -> (r: Vec<u8>) {
        let (hi, lo) = split_number(self.number);
        let mut packet = vec![0u8, 3u8, hi, lo];
        packet.extend_from_slice(self.data.as_slice());
        assert(packet@ =~= seq![0u8, 3u8] + be_bytes(self.number) + self.data@);
        packet
    }

    fn from_buffer(buf: &[u8]) -> (r: Option<TftpData>) {
        if buf.len() < 4 || buf.len() > 4 + MAX_DATA_SIZE {
            None
        } else if buf[0] != 0u8 || buf[1] != 3u8 {
            None
        } else {
            let payload = slice_to_vec(slice_subrange(buf, 4, buf.len()));
            Some(TftpData { number: join_number(buf[2], buf[3]), data: payload })
        }
    }
}

/// Decoding the bytes of a DATA packet whose payload fits in a block gives
/// that packet back.
pub proof fn lemma_data_round_trip(d: TftpData)
    requires
        d.data@.len() <= MAX_DATA_SIZE,
    ensures
        TftpData::decoded(TftpData::encoded(d@)) == Some(d@),
{
    let b = TftpData::encoded(d@);
    assert(b[2] == be_bytes(d.number)[0] && b[3] == be_bytes(d.number)[1]);
    assert(b.subrange(4, b.len() as int) =~= d.data@);
}

} // verus!
