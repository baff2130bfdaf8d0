use vstd::prelude::*;

use crate::codes::{ErrorCode, Opcode};
use crate::packet::Packet;
use crate::packet::ack::TftpAck;
use crate::packet::data::{TftpData, MAX_DATA_SIZE};
use crate::packet::error::TftpError;

verus! {

/// One side of a transfer: a host address (IPv4 addresses mapped into the
/// IPv6 space) and a port.
#[derive(Debug, Clone, Copy, PartialEq, Eq, Structural, Hash)]
pub struct TransferId {
    pub host: u128,
    pub port: u16,
}

/// What a waiting session learns from its endpoint.
#[derive(Debug)]
pub enum Event {
    /// The read timeout passed without a datagram.
    Timeout,
    /// A datagram arrived from `from`.
    Datagram { from: TransferId, bytes: Vec<u8> },
}

/// The abstract form of an `Event`.
pub enum EventView {
    Timeout,
    Datagram(TransferId, Seq<u8>),
}

impl View for Event {
    type V = EventView;

    open spec fn view(&self) -> EventView {
        match self {
            Event::Timeout => EventView::Timeout,
            Event::Datagram { from, bytes } => EventView::Datagram(*from, bytes@),
        }
    }
}

/// What a session asks its driver to do next.
#[derive(Debug)]
pub enum Action {
    /// Send this datagram to the peer, then wait for a reply.
    Send(Vec<u8>),
    /// Send this error datagram to a foreign endpoint, then keep waiting.
    Reject(TransferId, Vec<u8>),
    /// Keep waiting; nothing is sent.
    Ignore,
    /// Append `payload` to the file, then send `ack` to the peer. After a
    /// `last` block the transfer is complete.
    Store { payload: Vec<u8>, ack: Vec<u8>, last: bool },
    /// The block was acknowledged: load the next one.
    NextBlock,
    /// The last block was acknowledged: the transfer is complete.
    Complete,
    /// The retry budget is spent: end the session without sending anything.
    GiveUp,
}

/// The abstract form of an `Action`.
pub enum ActionView {
    Send(Seq<u8>),
    Reject(TransferId, Seq<u8>),
    Ignore,
    Store(Seq<u8>, Seq<u8>, bool),
    NextBlock,
    Complete,
    GiveUp,
}

impl View for Action {
    type V = ActionView;

    open spec fn view(&self) -> ActionView {
        match self {
            Action::Send(b) => ActionView::Send(b@),
            Action::Reject(to, b) => ActionView::Reject(*to, b@),
            Action::Ignore => ActionView::Ignore,
            Action::Store { payload, ack, last } => ActionView::Store(payload@, ack@, *last),
            Action::NextBlock => ActionView::NextBlock,
            Action::Complete => ActionView::Complete,
            Action::GiveUp => ActionView::GiveUp,
        }
    }
}

/// Where a session stands.
#[derive(Debug, Clone, Copy, PartialEq, Eq, Structural)]
pub enum Phase {
    /// Waiting for the next block to be handed in (sending side only).
    Loading,
    /// Waiting for the peer's reply.
    Waiting,
    /// The transfer is done.
    Complete,
    /// The session ended without completing.
    Failed,
}

/// The block number that follows `n`, modulo 65536.
pub open spec fn next_block(n: u16) -> u16 {
    ((n + 1) % 65536) as u16
}

fn following_block(n: u16) -> (r: u16)
    ensures
        r == next_block(n),
{
    if n == 65535 {
        0
    } else {
        n + 1
    }
}

/// The datagram acknowledging block `n`.
pub open spec fn ack_bytes(n: u16) -> Seq<u8> {
    TftpAck::encoded(n)
}

/// The datagram carrying block `n` with `payload`.
pub open spec fn data_bytes(n: u16, payload: Seq<u8>) -> Seq<u8> {
    TftpData::encoded((n, payload))
}

/// The error datagram sent to an endpoint that is not the session's peer.
pub open spec fn unknown_tid_bytes() -> Seq<u8> {
    TftpError::encoded((ErrorCode::UnknownTransferID, None))
}

fn unknown_tid_packet() -> (r: Vec<u8>)
    ensures
        r@ == unknown_tid_bytes(),
{
    TftpError { code: ErrorCode::UnknownTransferID, message: None }.as_packet()
}

/// Decides whether a request may go ahead. It is called before the file is
/// opened and before any datagram of the transfer is read: a write must not
/// replace an existing file, and a read needs one.
pub fn admit_request(op: Opcode, target_exists: bool) -> (r: Result<(), TftpError>)
    requires
        op == Opcode::ReadRequest || op == Opcode::WriteRequest,
    ensures
        op == Opcode::WriteRequest ==> match r {
            Ok(_) => !target_exists,
            Err(e) => target_exists && e@ == (ErrorCode::FileExists, None::<Seq<char>>),
        },
        op == Opcode::ReadRequest ==> match r {
            Ok(_) => target_exists,
            Err(e) => !target_exists && e@ == (ErrorCode::FileNotFound, None::<Seq<char>>),
        },
{
    if op == Opcode::WriteRequest {
        if target_exists {
            return Err(TftpError { code: ErrorCode::FileExists, message: None });
        }
    } else if !target_exists {
        return Err(TftpError { code: ErrorCode::FileNotFound, message: None });
    }
    Ok(())
}

// ---------------------------------------------------------------------------
// Receiving a file (serving a write request)
// ---------------------------------------------------------------------------

/// The abstract state of a receiving session: the last block acknowledged,
/// how often that acknowledgement has been sent, and the retry budget.
pub struct ReceiveView {
    pub peer: TransferId,
    pub block: u16,
    pub sends: nat,
    pub retries: nat,
    pub phase: Phase,
}

/// The state of a receiving session that has just acknowledged the write
/// request.
pub open spec fn receive_start(peer: TransferId, retries: nat) -> ReceiveView {
    ReceiveView { peer, block: 0, sends: 1, retries, phase: Phase::Waiting }
}

/// A timeout while receiving: send the acknowledgement again, or give up once
/// it has been sent `retries + 1` times.
pub open spec fn receive_retry(v: ReceiveView) -> (ReceiveView, ActionView) {
    if v.sends <= v.retries {
        (ReceiveView { sends: v.sends + 1, ..v }, ActionView::Send(ack_bytes(v.block)))
    } else {
        (ReceiveView { phase: Phase::Failed, ..v }, ActionView::GiveUp)
    }
}

/// How a receiving session answers an event.
pub open spec fn receive_step(v: ReceiveView, ev: EventView) -> (ReceiveView, ActionView) {
    if v.phase != Phase::Waiting {
        (v, ActionView::Ignore)
    } else {
        match ev {
            EventView::Timeout => receive_retry(v),
            EventView::Datagram(from, bytes) => {
                if from != v.peer {
                    (v, ActionView::Reject(from, unknown_tid_bytes()))
                } else {
                    match TftpData::decoded(bytes) {
                        None => (v, ActionView::Ignore),
                        Some(d) => {
                            if d.0 != next_block(v.block) {
                                (v, ActionView::Ignore)
                            } else {
                                let last = d.1.len() < MAX_DATA_SIZE;
                                (
                                    ReceiveView {
                                        block: d.0,
                                        sends: 1,
                                        phase: if last {
                                            Phase::Complete
                                        } else {
                                            Phase::Waiting
                                        },
                                        ..v
                                    },
                                    ActionView::Store(d.1, ack_bytes(d.0), last),
                                )
                            }
                        },
                    }
                }
            },
        }
    }
}

/// The lock-step state of one file being received from a peer.
pub struct ReceiveSession {
    peer: TransferId,
    block: u16,
    sends: u16,
    retries: u8,
    phase: Phase,
}

impl View for ReceiveSession {
    type V = ReceiveView;

    closed spec fn view(&self) -> ReceiveView {
        ReceiveView {
            peer: self.peer,
            block: self.block,
            sends: self.sends as nat,
            retries: self.retries as nat,
            phase: self.phase,
        }
    }
}

impl ReceiveSession {
    /// The session's own bound: the acknowledgement has been sent at most
    /// `retries + 1` times, and the sending side never loads.
    pub closed spec fn wf(&self) -> bool {
        &&& self.sends as int <= self.retries as int + 1
        &&& self.phase != Phase::Loading
    }

    /// Opens a session with `peer` that retries each acknowledgement up to
    /// `send_retry_attempts` times; the first action acknowledges block 0.
    pub fn start(peer: TransferId, send_retry_attempts: u8) -> (r: (ReceiveSession, Action))
        ensures
            r.0.wf(),
            r.0@ == receive_start(peer, send_retry_attempts as nat),
            r.1@ == ActionView::Send(ack_bytes(0)),
    {
        let s = ReceiveSession { peer, block: 0, sends: 1, retries: send_retry_attempts, phase: Phase::Waiting };
        (s, Action::Send(TftpAck { number: 0 }.as_packet()))
    }

    fn retry(&mut self) -> (r: Action)
        requires
            old(self).wf(),
            old(self).phase == Phase::Waiting,
        ensures
            final(self).wf(),
            (final(self)@, r@) == receive_retry(old(self)@),
    {
        if self.sends <= self.retries as u16 {
            self.sends = self.sends + 1;
            Action::Send(TftpAck { number: self.block }.as_packet())
        } else {
            self.phase = Phase::Failed;
            Action::GiveUp
        }
    }

    /// Answers one event: a timeout resends the acknowledgement within the
    /// retry budget; a datagram from another endpoint is refused without
    /// touching the session; only the DATA block after the last acknowledged
    /// one is taken, anything else is ignored.
    pub fn on_event(&mut self, ev: Event) -> (r: Action)
        requires
            old(self).wf(),
        ensures
            final(self).wf(),
            (final(self)@, r@) == receive_step(old(self)@, ev@),
    {
        if self.phase != Phase::Waiting {
            return Action::Ignore;
        }
        match ev {
            Event::Timeout => self.retry(),
            Event::Datagram { from, bytes } => {
                if from != self.peer {
                    return Action::Reject(from, unknown_tid_packet());
                }
                match TftpData::from_buffer(bytes.as_slice()) {
                    None => Action::Ignore,
                    Some(d) => {
                        if d.number != following_block(self.block) {
                            Action::Ignore
                        } else {
                            let last = d.data.len() < MAX_DATA_SIZE;
                            self.block = d.number;
                            self.sends = 1;
                            self.phase = if last {
                                Phase::Complete
                            } else {
                                Phase::Waiting
                            };
                            let ack = TftpAck { number: d.number }.as_packet();
                            Action::Store { payload: d.data, ack, last }
                        }
                    },
                }
            },
        }
    }

    /// Ends the session after the file could not be written; the error is
    /// the one to send to the peer.
    pub fn storage_failed(&mut self) -> (r: TftpError)
        requires
            old(self).wf(),
        ensures
            final(self).wf(),
            final(self)@ == (ReceiveView { phase: Phase::Failed, ..old(self)@ }),
            r@ == (ErrorCode::Undefined, None::<Seq<char>>),
    {
        self.phase = Phase::Failed;
        TftpError { code: ErrorCode::Undefined, message: None }
    }

    pub fn phase(&self) -> (r: Phase)
        ensures
            r == self@.phase,
    {
        self.phase
    }
}

// ---------------------------------------------------------------------------
// Sending a file (serving a read request)
// ---------------------------------------------------------------------------

/// The abstract state of a sending session: the block in flight and its
/// payload, how often it has been sent, and the retry budget.
pub struct SendView {
    pub peer: TransferId,
    pub block: u16,
    pub payload: Seq<u8>,
    pub sends: nat,
    pub retries: nat,
    pub phase: Phase,
}

/// The state of a new sending session, before block 1 is loaded.
pub open spec fn send_start(peer: TransferId, retries: nat) -> SendView {
    SendView { peer, block: 1, payload: Seq::empty(), sends: 0, retries, phase: Phase::Loading }
}

/// A timeout, or a reply that is no ACK, while sending: send the block again,
/// or give up once it has been sent `retries + 1` times.
pub open spec fn send_retry(v: SendView) -> (SendView, ActionView) {
    if v.sends <= v.retries {
        (SendView { sends: v.sends + 1, ..v }, ActionView::Send(data_bytes(v.block, v.payload)))
    } else {
        (SendView { phase: Phase::Failed, ..v }, ActionView::GiveUp)
    }
}

/// How a sending session answers an event.
pub open spec fn send_step(v: SendView, ev: EventView) -> (SendView, ActionView) {
    if v.phase != Phase::Waiting {
        (v, ActionView::Ignore)
    } else {
        match ev {
            EventView::Timeout => send_retry(v),
            EventView::Datagram(from, bytes) => {
                if from != v.peer {
                    (v, ActionView::Reject(from, unknown_tid_bytes()))
                } else {
                    match TftpAck::decoded(bytes) {
                        None => send_retry(v),
                        Some(n) => {
                            if n != v.block {
                                (v, ActionView::Ignore)
                            } else if v.payload.len() < MAX_DATA_SIZE {
                                (SendView { phase: Phase::Complete, ..v }, ActionView::Complete)
                            } else {
                                (
                                    SendView {
                                        block: next_block(v.block),
                                        phase: Phase::Loading,
                                        ..v
                                    },
                                    ActionView::NextBlock,
                                )
                            }
                        },
                    }
                }
            },
        }
    }
}

/// The lock-step state of one file being sent to a peer.
pub struct SendSession {
    peer: TransferId,
    data: TftpData,
    sends: u16,
    retries: u8,
    phase: Phase,
}

impl View for SendSession {
    type V = SendView;

    closed spec fn view(&self) -> SendView {
        SendView {
            peer: self.peer,
            block: self.data.number,
            payload: self.data.data@,
            sends: self.sends as nat,
            retries: self.retries as nat,
            phase: self.phase,
        }
    }
}

impl SendSession {
    /// The session's own bound: the block has been sent at most
    /// `retries + 1` times.
    pub closed spec fn wf(&self) -> bool {
        self.sends as int <= self.retries as int + 1
    }

    /// Opens a session with `peer` that retries each block up to
    /// `send_retry_attempts` times; it waits for block 1 to be loaded.
    pub fn new(peer: TransferId, send_retry_attempts: u8) -> (r: SendSession)
        ensures
            r.wf(),
            r@ == send_start(peer, send_retry_attempts as nat),
    {
        SendSession {
            peer,
            data: TftpData { number: 1, data: Vec::new() },
            sends: 0,
            retries: send_retry_attempts,
            phase: Phase::Loading,
        }
    }

    /// Loads the payload of the current block (the next at most 512 bytes of
    /// the file; fewer only at its end) and sends it.
    pub fn load(&mut self, chunk: Vec<u8>) -> (r: Action)
        requires
            old(self).wf(),
            old(self)@.phase == Phase::Loading,
            chunk@.len() <= MAX_DATA_SIZE,
        ensures
            final(self).wf(),
            final(self)@ == (SendView {
                payload: chunk@,
                sends: 1,
                phase: Phase::Waiting,
                ..old(self)@
            }),
            r@ == ActionView::Send(data_bytes(old(self)@.block, chunk@)),
    {
        self.data = TftpData { number: self.data.number, data: chunk };
        self.sends = 1;
        self.phase = Phase::Waiting;
        Action::Send(self.data.as_packet())
    }

    fn retry(&mut self) -> (r: Action)
        requires
            old(self).wf(),
            old(self).phase == Phase::Waiting,
        ensures
            final(self).wf(),
            (final(self)@, r@) == send_retry(old(self)@),
    {
        if self.sends <= self.retries as u16 {
            self.sends = self.sends + 1;
            Action::Send(self.data.as_packet())
        } else {
            self.phase = Phase::Failed;
            Action::GiveUp
        }
    }

    /// Answers one event: a timeout or a reply that is no ACK resends the
    /// block within the retry budget; a datagram from another endpoint is
    /// refused without touching the session; an ACK of another block is
    /// ignored; the ACK of the current block ends the transfer after a short
    /// block and asks for the next block after a full one.
    pub fn on_event(&mut self, ev: Event) -> (r: Action)
        requires
            old(self).wf(),
        ensures
            final(self).wf(),
            (final(self)@, r@) == send_step(old(self)@, ev@),
    {
        if self.phase != Phase::Waiting {
            return Action::Ignore;
        }
        match ev {
            Event::Timeout => self.retry(),
            Event::Datagram { from, bytes } => {
                if from != self.peer {
                    return Action::Reject(from, unknown_tid_packet());
                }
                match TftpAck::from_buffer(bytes.as_slice()) {
                    None => self.retry(),
                    Some(a) => {
                        if a.number != self.data.number {
                            Action::Ignore
                        } else if self.data.data.len() < MAX_DATA_SIZE {
                            self.phase = Phase::Complete;
                            Action::Complete
                        } else {
                            self.data.number = following_block(self.data.number);
                            self.phase = Phase::Loading;
                            Action::NextBlock
                        }
                    },
                }
            },
        }
    }

    pub fn phase(&self) -> (r: Phase)
        ensures
            r == self@.phase,
    {
        self.phase
    }
}

// ---------------------------------------------------------------------------
// What the sessions guarantee
// ---------------------------------------------------------------------------

/// A receiving session that is waiting answers a datagram from any endpoint
/// but its peer with an UnknownTransferID error to that endpoint, and keeps
/// its state exactly as it was.
pub proof fn lemma_receive_foreign_sender(v: ReceiveView, from: TransferId, bytes: Seq<u8>)
    requires
        v.phase == Phase::Waiting,
        from != v.peer,
    ensures
        receive_step(v, EventView::Datagram(from, bytes)) == (v, ActionView::Reject(from, unknown_tid_bytes())),
{
}

/// A sending session that is waiting answers a datagram from any endpoint
/// but its peer with an UnknownTransferID error to that endpoint, and keeps
/// its state exactly as it was.
pub proof fn lemma_send_foreign_sender(v: SendView, from: TransferId, bytes: Seq<u8>)
    requires
        v.phase == Phase::Waiting,
        from != v.peer,
    ensures
        send_step(v, EventView::Datagram(from, bytes)) == (v, ActionView::Reject(from, unknown_tid_bytes())),
{
}

/// `n` timeouts in a row at a receiving session: the state after them and
/// how many datagrams they made it send.
pub open spec fn receive_timeouts(v: ReceiveView, n: nat) -> (ReceiveView, nat)
    decreases n,
{
    if n == 0 {
        (v, 0)
    } else {
        let (w, k) = receive_timeouts(v, (n - 1) as nat);
        let (x, a) = receive_step(w, EventView::Timeout);
        (x, if a is Send { k + 1 } else { k })
    }
}

/// `n` timeouts in a row at a sending session: the state after them and how
/// many datagrams they made it send.
pub open spec fn send_timeouts(v: SendView, n: nat) -> (SendView, nat)
    decreases n,
{
    if n == 0 {
        (v, 0)
    } else {
        let (w, k) = send_timeouts(v, (n - 1) as nat);
        let (x, a) = send_step(w, EventView::Timeout);
        (x, if a is Send { k + 1 } else { k })
    }
}

/// With a retry budget of `k`, an acknowledgement that was just sent and
/// never answered is sent again on each of the next `k` timeouts, and the
/// timeout after those ends the session: `k + 1` sends in all, whatever
/// number of timeouts follows.
pub proof fn lemma_receive_retry_budget(v: ReceiveView, n: nat)
    requires
        v.phase == Phase::Waiting,
        v.sends == 1,
    ensures
        n <= v.retries ==> receive_timeouts(v, n) == (ReceiveView { sends: n + 1, ..v }, n),
        n > v.retries ==> receive_timeouts(v, n).0.phase == Phase::Failed
            && receive_timeouts(v, n).1 == v.retries,
    decreases n,
{
    if n > 0 {
        lemma_receive_retry_budget(v, (n - 1) as nat);
    }
}

/// With a retry budget of `k`, a DATA block that was just sent and never
/// acknowledged is sent again on each of the next `k` timeouts, and the
/// timeout after those ends the session: `k + 1` sends in all, whatever
/// number of timeouts follows.
pub proof fn lemma_send_retry_budget(v: SendView, n: nat)
    requires
        v.phase == Phase::Waiting,
        v.sends == 1,
    ensures
        n <= v.retries ==> send_timeouts(v, n) == (SendView { sends: n + 1, ..v }, n),
        n > v.retries ==> send_timeouts(v, n).0.phase == Phase::Failed
            && send_timeouts(v, n).1 == v.retries,
    decreases n,
{
    if n > 0 {
        lemma_send_retry_budget(v, (n - 1) as nat);
    }
}

/// The block number `j` blocks after `b`, modulo 65536.
pub open spec fn block_after(b: u16, j: nat) -> u16
    decreases j,
{
    if j == 0 {
        b
    } else {
        block_after(next_block(b), (j - 1) as nat)
    }
}

/// The `i`-th 512-byte piece of a file; the last piece is shorter, and
/// empty when the length is a multiple of 512.
pub open spec fn file_chunk(file: Seq<u8>, i: nat) -> Seq<u8> {
    let start = if 512 * i <= file.len() {
        512 * i as int
    } else {
        file.len() as int
    };
    let end = if 512 * i + 512 <= file.len() {
        512 * i as int + 512
    } else {
        file.len() as int
    };
    file.subrange(start, end)
}

/// Drives a loading sending session through `file` from piece `i` on: each
/// piece is loaded and then acknowledged by the peer at once. Gives the
/// final state and the DATA datagrams sent.
pub open spec fn drive(v: SendView, file: Seq<u8>, i: nat) -> (SendView, Seq<Seq<u8>>)
    decreases file.len() - 512 * i,
{
    let chunk = file_chunk(file, i);
    let loaded = SendView { payload: chunk, sends: 1, phase: Phase::Waiting, ..v };
    let acked = send_step(loaded, EventView::Datagram(v.peer, ack_bytes(v.block))).0;
    if acked.phase == Phase::Loading && 512 * i + 512 <= file.len() {
        let (w, rest) = drive(acked, file, i + 1);
        (w, seq![data_bytes(v.block, chunk)] + rest)
    } else {
        (acked, seq![data_bytes(v.block, chunk)])
    }
}

/// From piece `i` on, a file goes out as one DATA block per 512-byte piece,
/// numbered on from the session's block modulo 65536, up to and including
/// the first piece shorter than 512 bytes (empty when the length is a
/// multiple of 512); its acknowledgement completes the transfer.
pub proof fn lemma_drive(v: SendView, file: Seq<u8>, i: nat)
    requires
        v.phase == Phase::Loading,
        512 * i <= file.len(),
    ensures
        drive(v, file, i).0.phase == Phase::Complete,
        drive(v, file, i).1.len() == file.len() / 512 - i + 1,
        forall|j: int|
            0 <= j < drive(v, file, i).1.len() ==> #[trigger] drive(v, file, i).1[j] == data_bytes(
                block_after(v.block, j as nat),
                file_chunk(file, (i + j) as nat),
            ),
    decreases file.len() - 512 * i,
{
    crate::packet::ack::lemma_ack_round_trip(TftpAck { number: v.block });
    let chunk = file_chunk(file, i);
    let loaded = SendView { payload: chunk, sends: 1, phase: Phase::Waiting, ..v };
    let acked = send_step(loaded, EventView::Datagram(v.peer, ack_bytes(v.block))).0;
    if 512 * i + 512 <= file.len() {
        assert(chunk.len() == 512);
        lemma_drive(acked, file, i + 1);
        let rest = drive(acked, file, i + 1).1;
        assert forall|j: int| 0 <= j < drive(v, file, i).1.len() implies #[trigger] drive(
            v,
            file,
            i,
        ).1[j] == data_bytes(block_after(v.block, j as nat), file_chunk(file, (i + j) as nat)) by {
            if j > 0 {
                assert(drive(v, file, i).1[j] == rest[j - 1]);
                assert(block_after(v.block, j as nat) == block_after(next_block(v.block), (j - 1) as nat));
            }
        }
    } else {
        assert(chunk.len() < 512);
        assert(file.len() / 512 == i);
    }
}

/// An empty file goes out as exactly one DATA block, block 1 with an empty
/// payload, and its acknowledgement completes the transfer.
pub proof fn lemma_empty_file(peer: TransferId, retries: nat)
    ensures
        drive(send_start(peer, retries), Seq::empty(), 0).0.phase == Phase::Complete,
        drive(send_start(peer, retries), Seq::empty(), 0).1 == seq![data_bytes(1, Seq::empty())],
{
    let file = Seq::<u8>::empty();
    lemma_drive(send_start(peer, retries), file, 0);
    assert(file_chunk(file, 0) =~= Seq::empty());
    assert(drive(send_start(peer, retries), file, 0).1 =~= seq![data_bytes(1, Seq::empty())]);
}

/// A file of `512 * m` bytes, `m > 0`, goes out as `m` full DATA blocks and
/// then one more with an empty payload, whose acknowledgement completes the
/// transfer.
pub proof fn lemma_block_multiple_file(peer: TransferId, retries: nat, file: Seq<u8>, m: nat)
    requires
        m > 0,
        file.len() == 512 * m,
    ensures
        drive(send_start(peer, retries), file, 0).0.phase == Phase::Complete,
        drive(send_start(peer, retries), file, 0).1.len() == m + 1,
        forall|j: int|
            0 <= j < m ==> #[trigger] drive(send_start(peer, retries), file, 0).1[j] == data_bytes(
                block_after(1, j as nat),
                file.subrange(512 * j, 512 * j + 512),
            ),
        drive(send_start(peer, retries), file, 0).1[m as int] == data_bytes(
            block_after(1, m),
            Seq::empty(),
        ),
{
    let v = send_start(peer, retries);
    lemma_drive(v, file, 0);
    assert(file.len() / 512 == m);
    assert forall|j: int| 0 <= j < m implies #[trigger] drive(v, file, 0).1[j] == data_bytes(
        block_after(1, j as nat),
        file.subrange(512 * j, 512 * j + 512),
    ) by {
        assert(drive(v, file, 0).1[j] == data_bytes(block_after(1, j as nat), file_chunk(file, j as nat)));
    }
    assert(drive(v, file, 0).1[m as int] == data_bytes(block_after(1, m), file_chunk(file, m)));
    assert(file_chunk(file, m) =~= Seq::empty());
}

} // verus!
