use vstd::prelude::*;

verus! {

/// The read timeout a session waits for a reply, by default.
pub const DEFAULT_READ_TIMEOUT_NANOS: u64 = 20_000_000;

/// How often a session resends an unanswered datagram, by default.
pub const DEFAULT_SEND_RETRY_ATTEMPTS: u8 = 5;

/// The timing every session of a server runs with: how long it waits for a
/// reply (`None`: without limit, which leaves retries to the peer) and how
/// often it resends an unanswered datagram.
#[derive(Debug, Clone, Copy)]
pub struct TransferPolicy {
    read_timeout_nanos: Option<u64>,
    send_retry_attempts: u8,
}

impl View for TransferPolicy {
    type V = (Option<u64>, u8);

    closed spec fn view(&self) -> (Option<u64>, u8) {
        (self.read_timeout_nanos, self.send_retry_attempts)
    }
}

impl TransferPolicy {
    /// A zero timeout is no timeout at all, and is never held.
    pub closed spec fn wf(&self) -> bool {
        self.read_timeout_nanos != Some(0u64)
    }

    /// 20 ms of read timeout and 5 retries.
    pub fn new() -> (r: TransferPolicy)
        ensures
            r.wf(),
            r@ == (Some(DEFAULT_READ_TIMEOUT_NANOS), DEFAULT_SEND_RETRY_ATTEMPTS),
    {
        TransferPolicy {
            read_timeout_nanos: Some(DEFAULT_READ_TIMEOUT_NANOS),
            send_retry_attempts: DEFAULT_SEND_RETRY_ATTEMPTS,
        }
    }

    /// Sets the read timeout; a zero timeout is refused and changes nothing.
    pub fn set_read_timeout(&mut self, nanos: Option<u64>) -> (r: bool)
        requires
            old(self).wf(),
        ensures
            final(self).wf(),
            r == (nanos != Some(0u64)),
            r ==> final(self)@ == (nanos, old(self)@.1),
            !r ==> final(self)@ == old(self)@,
    {
        match nanos {
            Some(0) => false,
            _ => {
                self.read_timeout_nanos = nanos;
                true
            },
        }
    }

    /// Sets how often an unanswered datagram is sent again.
    pub fn set_send_retry_attempts(&mut self, attempts: u8)
        requires
            old(self).wf(),
        ensures
            final(self).wf(),
            final(self)@ == (old(self)@.0, attempts),
    {
        self.send_retry_attempts = attempts;
    }

    pub fn read_timeout_nanos(&self) -> (r: Option<u64>)
        ensures
            r == self@.0,
    {
        self.read_timeout_nanos
    }

    pub fn send_retry_attempts(&self) -> (r: u8)
        ensures
            r == self@.1,
    {
        self.send_retry_attempts
    }
}

} // verus!
