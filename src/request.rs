use vstd::prelude::*;
use vstd::slice::{slice_subrange, slice_to_vec};
use vstd::utf8::{decode_utf8, valid_utf8};

use crate::codes::{ErrorCode, TransferMode};
use crate::packet::PacketBuff;
use crate::packet::error::{text_of_bytes, TftpError};

verus! {

/// The lower-case form of a text, as `str::to_lowercase` folds it.
pub uninterp spec fn lower_of(s: Seq<char>) -> Seq<char>;

/// Relies on `str::to_lowercase`: the folded text depends on the characters
/// alone.
#[verifier::external_body]
fn lowercase(s: &str) -> (r: String)
    ensures
        r@ == lower_of(s@),
{
    s.to_lowercase()
}

/// The index of the first NUL at or after `i`, or the length when there is
/// none.
pub open spec fn nul_from(s: Seq<u8>, i: int) -> int
    decreases s.len() - i,
{
    if i < 0 || i >= s.len() {
        s.len() as int
    } else if s[i] == 0 {
        i
    } else {
        nul_from(s, i + 1)
    }
}

proof fn lemma_nul_from_bounds(s: Seq<u8>, i: int)
    requires
        0 <= i <= s.len(),
    ensures
        i <= nul_from(s, i) <= s.len(),
    decreases s.len() - i,
{
    if i < s.len() && s[i] != 0 {
        lemma_nul_from_bounds(s, i + 1);
    }
}

/// The filename field of a request body: the bytes before the first NUL.
/// It is always present, and may be empty.
pub open spec fn name_field(body: Seq<u8>) -> Seq<u8> {
    body.subrange(0, nul_from(body, 0))
}

/// Whether a request body has a mode field, that is a NUL after the filename.
pub open spec fn has_mode_field(body: Seq<u8>) -> bool {
    nul_from(body, 0) < body.len()
}

/// The mode field of a request body: the bytes after the first NUL, up to the
/// next one.
pub open spec fn mode_field(body: Seq<u8>) -> Seq<u8> {
    let start = nul_from(body, 0) + 1;
    body.subrange(start, nul_from(body, start))
}

/// The transfer mode a case-folded mode string names, or the text of the
/// error it is refused with.
pub open spec fn mode_of_folded(folded: Seq<char>) -> Result<TransferMode, Seq<char>> {
    if folded == "netascii"@ {
        Ok(TransferMode::NetAscii)
    } else if folded == "octet"@ {
        Ok(TransferMode::Octet)
    } else if folded == "email"@ {
        Err("Email transfer mode is not supported"@)
    } else {
        Err("Unknown transfer mode"@)
    }
}

/// What a request body asks for: the filename and the transfer mode, or the
/// text of the error it is refused with.
pub open spec fn request_outcome(body: Seq<u8>) -> Result<(Seq<char>, TransferMode), Seq<char>> {
    let name = name_field(body);
    if !valid_utf8(name) {
        Err("Invalid filename"@)
    } else if !has_mode_field(body) || !valid_utf8(mode_field(body)) {
        Err("Invalid mode string"@)
    } else {
        match mode_of_folded(lower_of(decode_utf8(mode_field(body)))) {
            Ok(m) => Ok((decode_utf8(name), m)),
            Err(t) => Err(t),
        }
    }
}

fn undefined_error(text: &str) -> (r: TftpError)
    ensures
        r@ == (ErrorCode::Undefined, Some(text@)),
{
    TftpError { code: ErrorCode::Undefined, message: Some(text.to_string()) }
}

/// The transfer mode named by an already case-folded mode string. `email` is
/// known but refused; any other string is an unknown mode.
pub fn transfer_mode(folded: &String) -> (r: Result<TransferMode, TftpError>)
    ensures
        match r {
            Ok(m) => mode_of_folded(folded@) == Ok::<TransferMode, Seq<char>>(m),
            Err(e) => e.code == ErrorCode::Undefined && e.message is Some
                && mode_of_folded(folded@) == Err::<TransferMode, Seq<char>>(e.message->0@),
        },
{
    if *folded == "netascii".to_string() {
        Ok(TransferMode::NetAscii)
    } else if *folded == "octet".to_string() {
        Ok(TransferMode::Octet)
    } else if *folded == "email".to_string() {
        Err(undefined_error("Email transfer mode is not supported"))
    } else {
        Err(undefined_error("Unknown transfer mode"))
    }
}

/// The index of the first NUL in `s` at or after `start`, or its length.
fn find_nul(s: &[u8], start: usize) -> (r: usize)
    requires
        start <= s@.len(),
    ensures
        r as int == nul_from(s@, start as int),
{
    let mut i = start;
    while i < s.len() && s[i] != 0
        invariant
            start <= i <= s@.len(),
            nul_from(s@, start as int) == nul_from(s@, i as int),
        decreases s@.len() - i,
    {
        i = i + 1;
    }
    i
}

/// Reads the filename and transfer mode of a read or write request from the
/// first `length` bytes of `packet`, which start with the two opcode bytes.
pub fn parse_rw_request(packet: &PacketBuff, length: usize) -> (r: Result<(String, TransferMode), TftpError>)
    requires
        2 <= length <= 1024,
    ensures
        match r {
            Ok((name, mode)) => request_outcome(packet@.subrange(2, length as int)) == Ok::<
                (Seq<char>, TransferMode),
                Seq<char>,
            >((name@, mode)),
            Err(e) => e.code == ErrorCode::Undefined && e.message is Some && request_outcome(
                packet@.subrange(2, length as int),
            ) == Err::<(Seq<char>, TransferMode), Seq<char>>(e.message->0@),
        },
{
    let body = slice_subrange(packet.as_slice(), 2, length);
    let name_end = find_nul(body, 0);
    proof {
        lemma_nul_from_bounds(body@, 0);
    }
    let filename = match text_of_bytes(slice_to_vec(slice_subrange(body, 0, name_end))) {
        Some(f) => f,
        None => return Err(undefined_error("Invalid filename")),
    };
    if name_end == body.len() {
        return Err(undefined_error("Invalid mode string"));
    }
    let mode_end = find_nul(body, name_end + 1);
    proof {
        lemma_nul_from_bounds(body@, name_end + 1);
    }
    let mode_text = match text_of_bytes(slice_to_vec(slice_subrange(body, name_end + 1, mode_end))) {
        Some(m) => m,
        None => return Err(undefined_error("Invalid mode string")),
    };
    let folded = lowercase(mode_text.as_str());
    match transfer_mode(&folded) {
        Ok(mode) => Ok((filename, mode)),
        Err(e) => Err(e),
    }
}

} // verus!
