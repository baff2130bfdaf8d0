use vstd::prelude::*;
use vstd::slice::{slice_subrange, slice_to_vec};
use vstd::utf8::{decode_utf8, encode_utf8, valid_utf8};
use vstd::utf8::{encode_utf8_decode_utf8, encode_utf8_valid_utf8};

use crate::codes::{code_of_byte, code_value, ErrorCode};
use crate::packet::Packet;

verus! {

/// An ERROR packet. Without a message the code's standard text is sent.
#[derive(Debug, PartialEq, Eq)]
pub struct TftpError {
    pub code: ErrorCode,
    pub message: Option<String>,
}

impl View for TftpError {
    type V = (ErrorCode, Option<Seq<char>>);

    open spec fn view(&self) -> (ErrorCode, Option<Seq<char>>) {
        (
            self.code,
            match self.message {
                Some(m) => Some(m@),
                None => None,
            },
        )
    }
}

/// The text sent for a code when no message is given.
pub open spec fn standard_text(c: ErrorCode) -> Seq<char> {
    match c {
        ErrorCode::Undefined => "Undefined"@,
        ErrorCode::FileNotFound => "File not found"@,
        ErrorCode::AccessViolation => "Access violation"@,
        ErrorCode::DiskFull => "Disk full"@,
        ErrorCode::IllegalOperation => "Illegal operation"@,
        ErrorCode::UnknownTransferID => "Unknown transfer id"@,
        ErrorCode::FileExists => "File exists"@,
        ErrorCode::NoSuchUser => "No such user"@,
        ErrorCode::SilentError => ""@,
    }
}

/// The text an error carries on the wire.
pub open spec fn sent_text(v: (ErrorCode, Option<Seq<char>>)) -> Seq<char> {
    match v.1 {
        Some(m) => m,
        None => standard_text(v.0),
    }
}

/// The message bytes of an ERROR datagram: between the code and the final NUL.
pub open spec fn message_bytes(buf: Seq<u8>) -> Seq<u8> {
    buf.subrange(4, buf.len() - 1)
}

/// Whether `buf` is framed as an ERROR datagram: header `0 5 0 code` with a
/// known code, at least one byte after it, and a final NUL.
pub open spec fn error_framed(buf: Seq<u8>) -> bool {
    &&& buf.len() > 4
    &&& buf[0] == 0
    &&& buf[1] == 5
    &&& buf[2] == 0
    &&& code_of_byte(buf[3]) is Some
    &&& buf[buf.len() - 1] == 0
}

fn standard_message(c: ErrorCode) -> (r: &'static str)
    ensures
        r@ == standard_text(c),
{
    match c {
        ErrorCode::Undefined => "Undefined",
        ErrorCode::FileNotFound => "File not found",
        ErrorCode::AccessViolation => "Access violation",
        ErrorCode::DiskFull => "Disk full",
        ErrorCode::IllegalOperation => "Illegal operation",
        ErrorCode::UnknownTransferID => "Unknown transfer id",
        ErrorCode::FileExists => "File exists",
        ErrorCode::NoSuchUser => "No such user",
        ErrorCode::SilentError => "",
    }
}

/// Relies on `String::from_utf8`: it accepts exactly the valid UTF-8 byte
/// strings, and the string it returns holds those bytes.
#[verifier::external_body]
pub(crate) fn utf8_to_string(bytes: Vec<u8>) -> (r: Option<String>)
    ensures
        r is Some <==> valid_utf8(bytes@),
        r matches Some(s) ==> encode_utf8(s@) == bytes@,
{
    String::from_utf8(bytes).ok()
}

/// Reads UTF-8 bytes as text; `None` where they are not valid UTF-8.
pub fn text_of_bytes(bytes: Vec<u8>) -> (r: Option<String>)
    ensures
        r is Some <==> valid_utf8(bytes@),
        r matches Some(s) ==> s@ == decode_utf8(bytes@),
{
    let r = utf8_to_string(bytes);
    proof {
        if r is Some {
            encode_utf8_decode_utf8(r->0@);
        }
    }
    r
}

impl Packet for TftpError {
    open spec fn encoded(v: (ErrorCode, Option<Seq<char>>)) -> Seq<u8> {
        seq![0u8, 5u8, 0u8, code_value(v.0)] + encode_utf8(sent_text(v)) + seq![0u8]
    }

    open spec fn decoded(buf: Seq<u8>) -> Option<(ErrorCode, Option<Seq<char>>)> {
        if error_framed(buf) && valid_utf8(message_bytes(buf)) {
            Some((code_of_byte(buf[3])->0, Some(decode_utf8(message_bytes(buf)))))
        } else {
            None
        }
    }

    /// `SilentError` never goes on the wire.
    open spec fn encodable(v: (ErrorCode, Option<Seq<char>>)) -> bool {
        v.0 != ErrorCode::SilentError
    }

    fn as_packet(&self) -> (r: Vec<u8>) {
        let mut packet = vec![0u8, 5u8, 0u8, self.code.wire_value()];
        let text: &str = match &self.message {
            Some(m) => m.as_str(),
            None => standard_message(self.code),
        };
        packet.extend_from_slice(text.as_bytes());
        packet.push(0u8);
        assert(packet@ =~= Self::encoded(self@));
        packet
    }

    fn from_buffer(buf: &[u8]) -> (r: Option<TftpError>) {
        if buf.len() <= 4 {
            return None;
        } else if buf[0] != 0u8 || buf[1] != 5u8 || buf[2] != 0u8 {
            return None;
        } else if buf[buf.len() - 1] != 0u8 {
            return None;
        }
        let code = match ErrorCode::from_wire(buf[3]) {
            Some(c) => c,
            None => return None,
        };
        let body = slice_to_vec(slice_subrange(buf, 4, buf.len() - 1));
        match text_of_bytes(body) {
            Some(message) => Some(TftpError { code, message: Some(message) }),
            None => None,
        }
    }
}

/// Decoding the bytes of an error that carries a message gives that error
/// back.
pub proof fn lemma_error_round_trip(e: TftpError)
    requires
        e.code != ErrorCode::SilentError,
        e.message is Some,
    ensures
        TftpError::decoded(TftpError::encoded(e@)) == Some(e@),
{
    let m = e.message->0@;
    let b = TftpError::encoded(e@);
    encode_utf8_valid_utf8(m);
    encode_utf8_decode_utf8(m);
    assert(message_bytes(b) =~= encode_utf8(m));
    crate::codes::lemma_code_round_trip(e.code);
}

/// A local storage failure, as far as the protocol distinguishes them.
#[derive(Debug, Clone, Copy, PartialEq, Eq, Structural)]
pub enum IoErrorKind {
    PermissionDenied,
    AlreadyExists,
    NotFound,
    Other,
}

/// The error reported to the peer for a local storage failure.
pub fn translate_io_error(e: IoErrorKind) -> (r: TftpError)
    ensures
        r@ == match e {
            IoErrorKind::PermissionDenied => (ErrorCode::AccessViolation, None),
            IoErrorKind::AlreadyExists => (ErrorCode::FileExists, None),
            IoErrorKind::NotFound => (ErrorCode::FileNotFound, None),
            IoErrorKind::Other => (
                ErrorCode::Undefined,
                Some("An unknown IO error occurred"@),
            ),
        },
{
    match e {
        IoErrorKind::PermissionDenied => TftpError { code: ErrorCode::AccessViolation, message: None },
        IoErrorKind::AlreadyExists => TftpError { code: ErrorCode::FileExists, message: None },
        IoErrorKind::NotFound => TftpError { code: ErrorCode::FileNotFound, message: None },
        IoErrorKind::Other => TftpError {
            code: ErrorCode::Undefined,
            message: Some("An unknown IO error occurred".to_string()),
        },
    }
}

} // verus!
