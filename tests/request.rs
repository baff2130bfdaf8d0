use tftp::codes::{ErrorCode, TransferMode};
use tftp::packet::error::TftpError;
use tftp::request::{parse_rw_request, transfer_mode};

fn request(bytes: &[u8]) -> ([u8; 1024], usize) {
    let mut b = [0u8; 1024];
    b[..bytes.len()].copy_from_slice(bytes);
    (b, bytes.len())
}

fn refused(text: &str) -> TftpError {
    TftpError { code: ErrorCode::Undefined, message: Some(text.to_string()) }
}

#[test]
fn parses_octet_read_request() {
    let (b, n) = request(b"\x00\x01file.txt\x00octet\x00");
    assert_eq!(parse_rw_request(&b, n), Ok(("file.txt".to_string(), TransferMode::Octet)));
}

#[test]
fn mode_is_case_folded() {
    let (b, n) = request(b"\x00\x02a/b.bin\x00NetASCII\x00");
    assert_eq!(parse_rw_request(&b, n), Ok(("a/b.bin".to_string(), TransferMode::NetAscii)));
    let (b, n) = request(b"\x00\x01x\x00OCTET\x00");
    assert_eq!(parse_rw_request(&b, n), Ok(("x".to_string(), TransferMode::Octet)));
}

#[test]
fn trailing_fields_are_ignored() {
    let (b, n) = request(b"\x00\x01x\x00octet\x00blksize\x00512\x00");
    assert_eq!(parse_rw_request(&b, n), Ok(("x".to_string(), TransferMode::Octet)));
    // a mode without its final NUL still counts
    let (b, n) = request(b"\x00\x01x\x00octet");
    assert_eq!(parse_rw_request(&b, n), Ok(("x".to_string(), TransferMode::Octet)));
}

#[test]
fn email_mode_is_refused() {
    let (b, n) = request(b"\x00\x01x\x00email\x00");
    assert_eq!(parse_rw_request(&b, n), Err(refused("Email transfer mode is not supported")));
}

#[test]
fn unknown_mode_is_refused() {
    let (b, n) = request(b"\x00\x01x\x00binary\x00");
    assert_eq!(parse_rw_request(&b, n), Err(refused("Unknown transfer mode")));
    let (b, n) = request(b"\x00\x01x\x00\x00");
    assert_eq!(parse_rw_request(&b, n), Err(refused("Unknown transfer mode")));
}

#[test]
fn missing_mode_is_refused() {
    let (b, n) = request(b"\x00\x01file.txt");
    assert_eq!(parse_rw_request(&b, n), Err(refused("Invalid mode string")));
}

#[test]
fn empty_filename_is_a_field() {
    let (b, n) = request(b"\x00\x01\x00octet\x00");
    assert_eq!(parse_rw_request(&b, n), Ok((String::new(), TransferMode::Octet)));
    let (b, n) = request(b"\x00\x01\x00email\x00");
    assert_eq!(parse_rw_request(&b, n), Err(refused("Email transfer mode is not supported")));
    let (b, n) = request(b"\x00\x01\x00binary\x00");
    assert_eq!(parse_rw_request(&b, n), Err(refused("Unknown transfer mode")));
    // a body with no NUL at all, even an empty one, lacks the mode
    let (b, n) = request(b"\x00\x01");
    assert_eq!(parse_rw_request(&b, n), Err(refused("Invalid mode string")));
}

#[test]
fn malformed_utf8_is_refused() {
    let (b, n) = request(b"\x00\x01\xff\xfe\x00octet\x00");
    assert_eq!(parse_rw_request(&b, n), Err(refused("Invalid filename")));
    let (b, n) = request(b"\x00\x01x\x00oct\xc3\x00");
    assert_eq!(parse_rw_request(&b, n), Err(refused("Invalid mode string")));
}

#[test]
fn transfer_mode_of_folded_text() {
    assert_eq!(transfer_mode(&"netascii".to_string()), Ok(TransferMode::NetAscii));
    assert_eq!(transfer_mode(&"octet".to_string()), Ok(TransferMode::Octet));
    assert_eq!(transfer_mode(&"email".to_string()), Err(refused("Email transfer mode is not supported")));
    // the text is taken as already folded
    assert_eq!(transfer_mode(&"Octet".to_string()), Err(refused("Unknown transfer mode")));
}
