use tftp::codes::{ErrorCode, Opcode};
use tftp::config::TransferPolicy;
use tftp::packet::ack::TftpAck;
use tftp::packet::data::TftpData;
use tftp::packet::error::TftpError;
use tftp::packet::Packet;
use tftp::transfer::{admit_request, Action, Event, Phase, ReceiveSession, SendSession, TransferId};

const PEER: TransferId = TransferId { host: 0x7f00_0001, port: 40000 };
const STRANGER: TransferId = TransferId { host: 0x7f00_0001, port: 40001 };

fn ack(n: u16) -> Vec<u8> {
    TftpAck { number: n }.as_packet()
}

fn data(n: u16, payload: Vec<u8>) -> Vec<u8> {
    TftpData { number: n, data: payload }.as_packet()
}

fn from_peer(bytes: Vec<u8>) -> Event {
    Event::Datagram { from: PEER, bytes }
}

fn sent(a: Action) -> Vec<u8> {
    match a {
        Action::Send(b) => b,
        other => panic!("expected a send, got {:?}", other),
    }
}

fn unknown_tid() -> Vec<u8> {
    TftpError { code: ErrorCode::UnknownTransferID, message: None }.as_packet()
}

#[test]
fn read_of_1000_byte_file() {
    let mut s = SendSession::new(PEER, 5);
    let file: Vec<u8> = (0..1000u32).map(|i| (i % 251) as u8).collect();
    assert_eq!(sent(s.load(file[..512].to_vec())), data(1, file[..512].to_vec()));
    assert!(matches!(s.on_event(from_peer(ack(1))), Action::NextBlock));
    let second = sent(s.load(file[512..].to_vec()));
    assert_eq!(second.len(), 4 + 488);
    assert_eq!(second, data(2, file[512..].to_vec()));
    assert!(matches!(s.on_event(from_peer(ack(2))), Action::Complete));
    assert_eq!(s.phase(), Phase::Complete);
    // nothing more is sent once complete
    assert!(matches!(s.on_event(Event::Timeout), Action::Ignore));
}

#[test]
fn empty_file_sends_one_empty_block() {
    let mut s = SendSession::new(PEER, 5);
    assert_eq!(sent(s.load(vec![])), vec![0, 3, 0, 1]);
    assert!(matches!(s.on_event(from_peer(ack(1))), Action::Complete));
    assert_eq!(s.phase(), Phase::Complete);
}

#[test]
fn block_multiple_file_ends_with_empty_block() {
    let mut s = SendSession::new(PEER, 5);
    sent(s.load(vec![1u8; 512]));
    assert!(matches!(s.on_event(from_peer(ack(1))), Action::NextBlock));
    sent(s.load(vec![2u8; 512]));
    assert!(matches!(s.on_event(from_peer(ack(2))), Action::NextBlock));
    assert_eq!(sent(s.load(vec![])), vec![0, 3, 0, 3]);
    assert!(matches!(s.on_event(from_peer(ack(3))), Action::Complete));
}

#[test]
fn send_retry_budget() {
    let k = 3u8;
    let mut s = SendSession::new(PEER, k);
    let mut sends = 1;
    let first = sent(s.load(vec![9u8; 10]));
    loop {
        match s.on_event(Event::Timeout) {
            Action::Send(b) => {
                assert_eq!(b, first);
                sends += 1;
            }
            Action::GiveUp => break,
            other => panic!("unexpected {:?}", other),
        }
    }
    assert_eq!(sends, k as u32 + 1);
    assert_eq!(s.phase(), Phase::Failed);
    assert!(matches!(s.on_event(Event::Timeout), Action::Ignore));
}

#[test]
fn send_garbage_reply_counts_as_retry() {
    let mut s = SendSession::new(PEER, 1);
    let first = sent(s.load(vec![1, 2, 3]));
    assert_eq!(sent(s.on_event(from_peer(vec![0, 9]))), first);
    assert!(matches!(s.on_event(from_peer(vec![0, 9])), Action::GiveUp));
}

#[test]
fn send_stale_ack_is_ignored() {
    let mut s = SendSession::new(PEER, 5);
    sent(s.load(vec![0u8; 512]));
    assert!(matches!(s.on_event(from_peer(ack(1))), Action::NextBlock));
    sent(s.load(vec![0u8; 7]));
    assert!(matches!(s.on_event(from_peer(ack(1))), Action::Ignore));
    assert_eq!(s.phase(), Phase::Waiting);
    assert!(matches!(s.on_event(from_peer(ack(2))), Action::Complete));
}

#[test]
fn send_foreign_sender_is_refused() {
    let mut s = SendSession::new(PEER, 0);
    sent(s.load(vec![5u8; 512]));
    match s.on_event(Event::Datagram { from: STRANGER, bytes: ack(1) }) {
        Action::Reject(to, bytes) => {
            assert_eq!(to, STRANGER);
            assert_eq!(bytes, unknown_tid());
        }
        other => panic!("unexpected {:?}", other),
    }
    assert_eq!(s.phase(), Phase::Waiting);
    // the session goes on with its peer as before
    assert!(matches!(s.on_event(from_peer(ack(1))), Action::NextBlock));
}

#[test]
fn receive_three_blocks() {
    let (mut s, first) = ReceiveSession::start(PEER, 5);
    assert_eq!(sent(first), ack(0));
    match s.on_event(from_peer(data(1, vec![1u8; 512]))) {
        Action::Store { payload, ack: a, last } => {
            assert_eq!(payload, vec![1u8; 512]);
            assert_eq!(a, ack(1));
            assert!(!last);
        }
        other => panic!("unexpected {:?}", other),
    }
    // a retransmitted block 1 is not taken again
    assert!(matches!(s.on_event(from_peer(data(1, vec![1u8; 512]))), Action::Ignore));
    // a block from the future is not taken either
    assert!(matches!(s.on_event(from_peer(data(3, vec![3u8; 10]))), Action::Ignore));
    // noise is ignored
    assert!(matches!(s.on_event(from_peer(vec![0, 4, 0, 1])), Action::Ignore));
    match s.on_event(from_peer(data(2, vec![2u8; 100]))) {
        Action::Store { payload, ack: a, last } => {
            assert_eq!(payload, vec![2u8; 100]);
            assert_eq!(a, ack(2));
            assert!(last);
        }
        other => panic!("unexpected {:?}", other),
    }
    assert_eq!(s.phase(), Phase::Complete);
}

#[test]
fn receive_empty_last_block() {
    let (mut s, _) = ReceiveSession::start(PEER, 5);
    assert!(matches!(s.on_event(from_peer(data(1, vec![]))), Action::Store { last: true, .. }));
    assert_eq!(s.phase(), Phase::Complete);
}

#[test]
fn receive_retry_budget() {
    let k = 4u8;
    let (mut s, first) = ReceiveSession::start(PEER, k);
    let first = sent(first);
    let mut sends = 1;
    loop {
        match s.on_event(Event::Timeout) {
            Action::Send(b) => {
                assert_eq!(b, first);
                sends += 1;
            }
            Action::GiveUp => break,
            other => panic!("unexpected {:?}", other),
        }
    }
    assert_eq!(sends, k as u32 + 1);
    assert_eq!(s.phase(), Phase::Failed);
}

#[test]
fn receive_foreign_sender_is_refused() {
    let (mut s, _) = ReceiveSession::start(PEER, 0);
    match s.on_event(Event::Datagram { from: STRANGER, bytes: data(1, vec![1, 2]) }) {
        Action::Reject(to, bytes) => {
            assert_eq!(to, STRANGER);
            assert_eq!(bytes, unknown_tid());
        }
        other => panic!("unexpected {:?}", other),
    }
    assert_eq!(s.phase(), Phase::Waiting);
    // the stranger did not consume the budget of 0: the peer's block is taken
    assert!(matches!(s.on_event(from_peer(data(1, vec![1, 2]))), Action::Store { last: true, .. }));
}

#[test]
fn receive_block_numbers_wrap() {
    let (mut s, _) = ReceiveSession::start(PEER, 1);
    for n in 1..=65535u32 {
        assert!(matches!(
            s.on_event(from_peer(data(n as u16, vec![0u8; 512]))),
            Action::Store { last: false, .. }
        ));
    }
    match s.on_event(from_peer(data(0, vec![1]))) {
        Action::Store { ack: a, last, .. } => {
            assert_eq!(a, ack(0));
            assert!(last);
        }
        other => panic!("unexpected {:?}", other),
    }
}

#[test]
fn receive_storage_failure() {
    let (mut s, _) = ReceiveSession::start(PEER, 1);
    assert_eq!(s.storage_failed(), TftpError { code: ErrorCode::Undefined, message: None });
    assert_eq!(s.phase(), Phase::Failed);
    assert!(matches!(s.on_event(Event::Timeout), Action::Ignore));
}

#[test]
fn existing_file_guard() {
    assert_eq!(
        admit_request(Opcode::WriteRequest, true),
        Err(TftpError { code: ErrorCode::FileExists, message: None })
    );
    assert_eq!(admit_request(Opcode::WriteRequest, false), Ok(()));
    assert_eq!(
        admit_request(Opcode::ReadRequest, false),
        Err(TftpError { code: ErrorCode::FileNotFound, message: None })
    );
    assert_eq!(admit_request(Opcode::ReadRequest, true), Ok(()));
}

#[test]
fn policy_defaults_and_setters() {
    let mut p = TransferPolicy::new();
    assert_eq!(p.read_timeout_nanos(), Some(20_000_000));
    assert_eq!(p.send_retry_attempts(), 5);
    assert!(!p.set_read_timeout(Some(0)));
    assert_eq!(p.read_timeout_nanos(), Some(20_000_000));
    assert!(p.set_read_timeout(Some(1_000)));
    assert_eq!(p.read_timeout_nanos(), Some(1_000));
    assert!(p.set_read_timeout(None));
    assert_eq!(p.read_timeout_nanos(), None);
    p.set_send_retry_attempts(9);
    assert_eq!(p.send_retry_attempts(), 9);
}
