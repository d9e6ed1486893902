//! The server: one table of sessions, and one worker per session.

use vstd::prelude::*;

pub mod session;
pub mod state;

verus! {

/// Seconds between two sweeps of the session table.
pub const CLEANUP_INTERVAL: u64 = 5 * 60;

/// Where a datagram came from or goes to. Two endpoints are the same peer
/// only if every part agrees.
#[derive(PartialEq, Eq, Structural, Clone, Copy, Debug)]
pub enum Endpoint {
    V4 { octets: u32, port: u16 },
    V6 { segments: u128, port: u16, flowinfo: u32, scope_id: u32 },
}

/// A datagram for a client, with what the worker remembers of it.
#[derive(Debug)]
pub struct Response {
    /// Where to send it.
    pub addr: Endpoint,
    pub session_id: u16,
    /// The sequence of the request that it answers.
    pub ack_id: u16,
    /// The datagram.
    pub buf: Vec<u8>,
}

/// A response as a value: the datagram by its bytes.
pub struct ResponseView {
    pub addr: Endpoint,
    pub session_id: u16,
    pub ack_id: u16,
    pub buf: Seq<u8>,
}

impl View for Response {
    type V = ResponseView;

    open spec fn view(&self) -> ResponseView {
        ResponseView {
            addr: self.addr,
            session_id: self.session_id,
            ack_id: self.ack_id,
            buf: self.buf@,
        }
    }
}

/// What the supervisor saw when it woke up: one of its four sources.
#[derive(PartialEq, Eq, Structural, Clone, Copy, Debug)]
pub enum Event {
    /// The socket handed over a datagram.
    Received,
    /// The socket failed to receive.
    ReceiveFailed,
    /// A worker has queued a response.
    Outgoing,
    /// The response queue has no sender left.
    QueueClosed,
    /// The cleanup timer ticked.
    CleanupTick,
    /// The shutdown signal came.
    Shutdown,
}

/// What the supervisor does with what it saw.
#[derive(PartialEq, Eq, Structural, Clone, Copy, Debug)]
pub enum Step {
    /// Hand the datagram to the session table.
    Process,
    /// Send the response.
    Send,
    /// Do nothing: the datagram or the response is lost.
    Skip,
    /// Sweep the session table.
    Cleanup,
    /// Take no more datagrams, send what is queued, then stop.
    Drain,
    /// Stop.
    Stop,
}

/// Whether the simulated channel loses the datagram for which `sample` was
/// drawn: one in `one_in` is lost, and none when `one_in` is zero.
pub open spec fn loses(sample: u8, one_in: u8) -> bool {
    one_in != 0 && sample % one_in == 0
}

/// The step for `event`, where `sample` was drawn for it and the simulated
/// channel loses one datagram in `one_in`.
pub open spec fn step_for(event: Event, sample: u8, one_in: u8) -> Step {
    match event {
        Event::Received => if loses(sample, one_in) {
            Step::Skip
        } else {
            Step::Process
        },
        Event::ReceiveFailed => Step::Skip,
        Event::Outgoing => if loses(sample, one_in) {
            Step::Skip
        } else {
            Step::Send
        },
        Event::QueueClosed => Step::Stop,
        Event::CleanupTick => Step::Cleanup,
        Event::Shutdown => Step::Drain,
    }
}

/// `rand::random::<u8>`: a byte from the thread's random number generator.
/// Nothing is claimed of the result.
#[verifier::external_body]
fn random_sample() -> (sample: u8) {
    rand::random::<u8>()
}

/// The step for `event` once `sample` has been drawn for it.
pub fn decide(event: Event, sample: u8, one_in: u8) -> (step: Step)
    ensures
        step == step_for(event, sample, one_in),
{
    let lost = one_in != 0 && sample % one_in == 0;
    match event {
        Event::Received => if lost {
            Step::Skip
        } else {
            Step::Process
        },
        Event::ReceiveFailed => Step::Skip,
        Event::Outgoing => if lost {
            Step::Skip
        } else {
            Step::Send
        },
        Event::QueueClosed => Step::Stop,
        Event::CleanupTick => Step::Cleanup,
        Event::Shutdown => Step::Drain,
    }
}

/// The supervisor's next step: draws a sample and decides by it. With
/// `one_in` zero nothing is ever lost.
pub fn next_step(event: Event, one_in: u8) -> (step: Step)
    ensures
        exists|sample: u8| step == #[trigger] step_for(event, sample, one_in),
        one_in == 0 ==> step == step_for(event, 0, 0),
{
    let sample = random_sample();
    decide(event, sample, one_in)
}

impl Clone for Response {
    fn clone(&self) -> (copy: Self)
        ensures
            copy@ == self@,
    {
        Response {
            addr: self.addr,
            session_id: self.session_id,
            ack_id: self.ack_id,
            buf: self.buf.clone(),
        }
    }
}

} // verus!
