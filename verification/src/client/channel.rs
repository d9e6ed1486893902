//! Sending a datagram until its answer comes.
//!
//! The caller sends the datagram once, then waits on the socket with a read
//! timeout and reports each outcome here. The answer says what to do next.

use crate::network::PackedHeader;
use vstd::prelude::*;

verus! {

/// What to do after one outcome of waiting.
#[derive(PartialEq, Eq, Structural, Clone, Copy, Debug)]
pub enum Wait {
    /// The answer has come: hand the datagram on.
    Deliver,
    /// A datagram came that acknowledges another sequence: wait on, in the
    /// time that is left of this attempt.
    KeepWaiting,
    /// The wait timed out and attempts are left: send the datagram again and
    /// wait anew.
    Retransmit,
    /// The wait timed out and no attempt is left: give up.
    TimedOut,
    /// A datagram came that starts with no header: give up.
    InvalidData,
}

/// The progress of one send-and-wait.
#[derive(Clone, Copy, Debug)]
pub struct SendAndWait {
    seq_num: u16,
    max_retries: usize,
    attempt: usize,
}

/// The progress of one send-and-wait, as a value.
pub struct SendAndWaitView {
    /// The sequence that the answer has to acknowledge.
    pub seq_num: u16,
    /// The attempts allowed.
    pub max_retries: usize,
    /// The attempts that have timed out.
    pub attempt: usize,
}

impl SendAndWaitView {
    /// The start: the datagram has been sent once and nothing has timed out.
    pub open spec fn start(seq_num: u16, max_retries: usize) -> SendAndWaitView {
        SendAndWaitView { seq_num, max_retries, attempt: 0 }
    }

    /// What a datagram that came in means.
    pub open spec fn on_datagram(self, datagram: Seq<u8>) -> Wait {
        match PackedHeader::parse(datagram) {
            Ok(header) => if header.ack == self.seq_num {
                Wait::Deliver
            } else {
                Wait::KeepWaiting
            },
            Err(_) => Wait::InvalidData,
        }
    }

    /// The progress after one more timeout.
    pub open spec fn timed_out(self) -> SendAndWaitView {
        if self.attempt < self.max_retries {
            SendAndWaitView { attempt: (self.attempt + 1) as usize, ..self }
        } else {
            self
        }
    }

    /// What a timeout means.
    pub open spec fn on_timeout(self) -> Wait {
        if self.timed_out().attempt >= self.max_retries {
            Wait::TimedOut
        } else {
            Wait::Retransmit
        }
    }

    /// How often the datagram is sent again from here on if no datagram ever
    /// comes in.
    pub open spec fn retransmissions(self) -> nat
        decreases self.max_retries - self.attempt,
    {
        if self.on_timeout() == Wait::Retransmit {
            1 + self.timed_out().retransmissions()
        } else {
            0
        }
    }
}

impl View for SendAndWait {
    type V = SendAndWaitView;

    closed spec fn view(&self) -> SendAndWaitView {
        SendAndWaitView {
            seq_num: self.seq_num,
            max_retries: self.max_retries,
            attempt: self.attempt,
        }
    }
}

impl SendAndWait {
    /// Starts to wait for the answer to the datagram with sequence `seq_num`,
    /// which the caller has sent once.
    pub fn new(seq_num: u16, max_retries: usize) -> (wait: Self)
        ensures
            wait@ == SendAndWaitView::start(seq_num, max_retries),
    {
        SendAndWait { seq_num, max_retries, attempt: 0 }
    }

    /// A datagram came in.
    pub fn on_datagram(&self, datagram: &[u8]) -> (wait: Wait)
        ensures
            wait == self@.on_datagram(datagram@),
    {
        match PackedHeader::try_deserialize(datagram) {
            Ok(header) => {
                if header.ack == self.seq_num {
                    Wait::Deliver
                } else {
                    Wait::KeepWaiting
                }
            },
            Err(_) => Wait::InvalidData,
        }
    }

    /// The wait timed out.
    pub fn on_timeout(&mut self) -> (wait: Wait)
        ensures
            final(self)@ == old(self)@.timed_out(),
            wait == old(self)@.on_timeout(),
    {
        if self.attempt < self.max_retries {
            self.attempt += 1;
        }
        if self.attempt >= self.max_retries {
            Wait::TimedOut
        } else {
            Wait::Retransmit
        }
    }
}

/// With `left` attempts left and no datagram coming in, the datagram is sent
/// again `left - 1` times.
proof fn lemma_retransmissions(wait: SendAndWaitView)
    requires
        wait.attempt < wait.max_retries,
    ensures
        wait.retransmissions() == wait.max_retries - wait.attempt - 1,
    decreases wait.max_retries - wait.attempt,
{
    if wait.attempt + 1 < wait.max_retries {
        lemma_retransmissions(wait.timed_out());
    }
}

/// If no datagram ever comes in and at least one attempt is allowed, the
/// datagram is sent `max_retries` times in all, the first time included, and
/// the wait then ends with `TimedOut`.
pub proof fn lemma_retry_bound(seq_num: u16, max_retries: usize)
    requires
        max_retries >= 1,
    ensures
        1 + SendAndWaitView::start(seq_num, max_retries).retransmissions() == max_retries,
        (SendAndWaitView { seq_num, max_retries, attempt: (max_retries - 1) as usize }).on_timeout()
            == Wait::TimedOut,
{
    lemma_retransmissions(SendAndWaitView::start(seq_num, max_retries));
}

} // verus!
