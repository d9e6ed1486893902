//! The worker of one session: what it answers to each datagram that the
//! table hands it.

use crate::command::EncodedCommand;
use crate::command::COMMAND_SIZE;
use crate::command::PACKET_SIZE;
use crate::network::MessageType;
use crate::network::PackedHeader;
use crate::noise::handshake_builds;
use crate::noise::new_handshake;
use crate::noise::ENC_PATTERN;
use crate::noise::Noise;
use crate::noise::Phase;
use crate::server::Endpoint;
use crate::server::Response;
use crate::serialize::envelope;
use crate::serialize::lemma_envelope_round_trip;
use crate::serialize::write_command;
use crate::server::session::handler::accepted;
use crate::server::session::handler::decrypted;
use crate::server::session::handler::process;
use crate::server::session::handler::refusal;
use crate::server::session::handler::ProcessedMessage;
use crate::server::session::handler::ProcessingError;
use crate::server::ResponseView;
use vstd::prelude::*;
use vstd::slice::slice_to_vec;

pub mod handler;

verus! {

/// What the session table keeps of one session.
#[derive(Clone, Copy, Debug)]
pub struct Session {
    /// The highest sequence that a request of this session carried.
    pub last_sequence_id: u16,
    /// When that request came, on the caller's monotonic clock.
    pub last_timestamp: u64,
}

/// A datagram on its way from the table to a worker.
#[derive(Debug)]
pub struct ChannelMessage {
    pub addr: Endpoint,
    pub header: PackedHeader,
    pub body: Vec<u8>,
}

/// A datagram on its way to a worker, as a value.
pub struct ChannelMessageView {
    pub addr: Endpoint,
    pub header: PackedHeader,
    pub body: Seq<u8>,
}

impl View for ChannelMessage {
    type V = ChannelMessageView;

    open spec fn view(&self) -> ChannelMessageView {
        ChannelMessageView { addr: self.addr, header: self.header, body: self.body@ }
    }
}

/// What the caller of a worker has to do after a datagram.
#[derive(Debug)]
pub enum WorkerAction {
    /// The request was new and has been answered: send the response.
    Respond(Response),
    /// The request was new and has been refused: send the error notice, then
    /// end the worker.
    Reject(Response),
    /// The request repeats the last one: send the last response again.
    Resend(Response),
    /// The request repeats an older one: send nothing.
    Ignore,
    /// The session is over: send nothing and end the worker.
    Close,
}

/// An action as a value.
pub enum WorkerActionView {
    Respond(ResponseView),
    Reject(ResponseView),
    Resend(ResponseView),
    Ignore,
    Close,
}

impl View for WorkerAction {
    type V = WorkerActionView;

    open spec fn view(&self) -> WorkerActionView {
        match self {
            WorkerAction::Respond(response) => WorkerActionView::Respond(response@),
            WorkerAction::Reject(response) => WorkerActionView::Reject(response@),
            WorkerAction::Resend(response) => WorkerActionView::Resend(response@),
            WorkerAction::Ignore => WorkerActionView::Ignore,
            WorkerAction::Close => WorkerActionView::Close,
        }
    }
}

/// The state of one worker.
pub struct SessionState {
    device_id: u32,
    session_id: u16,
    sequence_id: u16,
    last_ack_id: u16,
    snow_state: Noise,
    last_response: Option<Response>,
}

/// The state of one worker, as a value.
pub struct SessionStateView {
    pub device_id: u32,
    pub session_id: u16,
    /// The sequence of the last response.
    pub sequence_id: u16,
    /// The sequence of the last request that was processed.
    pub last_ack_id: u16,
    pub phase: Phase,
    /// The last response, kept to be sent again.
    pub last_response: Option<ResponseView>,
}

impl SessionStateView {
    /// The worker of a session that has just been opened: it has seen and
    /// sent nothing, and waits for the handshake request.
    pub open spec fn start(device_id: u32, session_id: u16) -> SessionStateView {
        SessionStateView {
            device_id,
            session_id,
            sequence_id: 0,
            last_ack_id: 0,
            phase: Phase::Handshake,
            last_response: None,
        }
    }

    /// The worker has answered no more requests than it has seen sequences,
    /// and the response it keeps answers the last request it processed.
    pub open spec fn wf(self) -> bool {
        &&& self.sequence_id <= self.last_ack_id
        &&& self.last_response is Some ==> self.last_response->Some_0.ack_id == self.last_ack_id
    }

    /// This state after a failure that ends the session.
    pub open spec fn closed(self) -> SessionStateView {
        SessionStateView { phase: Phase::Closed, ..self }
    }

    /// This state in another phase.
    pub open spec fn in_phase(self, phase: Phase) -> SessionStateView {
        SessionStateView { phase, ..self }
    }
}

/// The type of the response to an accepted request of type `request`.
pub open spec fn answer_type(request: MessageType) -> MessageType {
    if request == MessageType::HandshakeRequest {
        MessageType::HandshakeResponse
    } else {
        MessageType::Ack
    }
}

/// Whether `response` is a response of type `message_type` to `message`, made
/// by a worker in state `pre`: it goes back to where the request came from,
/// acknowledges the request's sequence, carries the worker's next sequence,
/// and is one datagram with a payload that a command can hold.
pub open spec fn response_to(
    pre: SessionStateView,
    message: ChannelMessageView,
    message_type: MessageType,
    response: ResponseView,
) -> bool {
    &&& response.addr == message.addr
    &&& response.session_id == pre.session_id
    &&& response.ack_id == message.header.sequence
    &&& 16 <= response.buf.len() <= 16 + COMMAND_SIZE
    &&& response.buf == envelope(
        PackedHeader {
            message_type,
            device_id: pre.device_id,
            session_id: pre.session_id,
            sequence: (pre.sequence_id + 1) as u16,
            ack: message.header.sequence,
        },
        response.buf.skip(16),
    )
}

/// Whether a worker in state `pre` that is handed `message` may end in state
/// `post` with `action`.
///
/// A closed worker stays closed. A sequence above the last one processed is
/// a new request: it is processed, counted and answered, and the answer is
/// kept; an error is answered with an error notice and closes the session.
/// Any other sequence is a repeat: from the address of the last response, it
/// gets that response again if it repeats the last request and nothing if it
/// is older; from another address, or with no response kept, it closes the
/// session.
pub open spec fn handled(
    pre: SessionStateView,
    message: ChannelMessageView,
    post: SessionStateView,
    action: WorkerActionView,
) -> bool {
    if pre.phase == Phase::Closed {
        action == WorkerActionView::Close && post == pre
    } else if pre.last_ack_id < message.header.sequence {
        &&& post == (SessionStateView {
            sequence_id: (pre.sequence_id + 1) as u16,
            last_ack_id: message.header.sequence,
            phase: post.phase,
            last_response: post.last_response,
            ..pre
        })
        &&& pre.sequence_id < message.header.sequence
        &&& refusal(pre, message.header, message.body) is Some ==> action is Reject
        &&& match action {
            WorkerActionView::Respond(response) => {
                &&& post.phase == Phase::Transport
                &&& post.last_response == Some(response)
                &&& response_to(pre, message, answer_type(message.header.message_type), response)
                &&& message.header.message_type == MessageType::EncryptedMessage
                    ==> response.buf.len() == 16
            },
            WorkerActionView::Reject(response) => {
                &&& post.phase == Phase::Closed
                &&& post.last_response == Some(response)
                &&& response_to(pre, message, MessageType::Error, response)
                &&& response.buf.len() == 16
            },
            _ => false,
        }
    } else {
        match pre.last_response {
            Some(last) => if last.addr == message.addr {
                if last.ack_id == message.header.sequence {
                    action == WorkerActionView::Resend(last) && post == pre
                } else {
                    action == WorkerActionView::Ignore && post == pre
                }
            } else {
                action == WorkerActionView::Close && post == pre.closed()
            },
            None => action == WorkerActionView::Close && post == pre.closed(),
        }
    }
}

/// Whether `message` is an encrypted message that a worker in state `pre`
/// takes as new and hands to decryption: the session is open and in
/// transport, the sequence is above the last one processed, and the body
/// holds a command.
pub open spec fn fresh_message(pre: SessionStateView, message: ChannelMessageView) -> bool {
    &&& pre.phase != Phase::Closed
    &&& pre.last_ack_id < message.header.sequence
    &&& message.header.message_type == MessageType::EncryptedMessage
    &&& refusal(pre, message.header, message.body) is None
}

impl View for SessionState {
    type V = SessionStateView;

    closed spec fn view(&self) -> SessionStateView {
        SessionStateView {
            device_id: self.device_id,
            session_id: self.session_id,
            sequence_id: self.sequence_id,
            last_ack_id: self.last_ack_id,
            phase: self.snow_state.phase(),
            last_response: match self.last_response {
                Some(response) => Some(response@),
                None => None,
            },
        }
    }
}

impl SessionState {
    /// The worker is well formed at all times.
    #[verifier::type_invariant]
    spec fn well_formed(self) -> bool {
        self@.wf()
    }

    /// The transport keys of the session, once the handshake is done.
    pub closed spec fn keys(&self) -> snow::StatelessTransportState {
        self.snow_state.keys()
    }

    /// The worker of a session that the table has just opened: it waits for
    /// the handshake request.
    pub fn new(device_id: u32, session_id: u16) -> (r: Result<Self, snow::Error>)
        ensures
            r is Ok <==> handshake_builds(ENC_PATTERN@, false),
            r is Ok ==> r->Ok_0@ == SessionStateView::start(device_id, session_id),
    {
        match new_handshake(false) {
            Ok(responder) => Ok(
                SessionState {
                    device_id,
                    session_id,
                    sequence_id: 0,
                    last_ack_id: 0,
                    snow_state: Noise::Handshake(responder),
                    last_response: None,
                },
            ),
            Err(e) => Err(e),
        }
    }

    /// Handles one datagram that the table handed to this worker and says
    /// what to do next. `decode` tells whether the payload of a decrypted
    /// message is a reading.
    pub fn handle<F: Fn(&[u8]) -> bool>(&mut self, message: ChannelMessage, decode: &F) -> (action:
        WorkerAction)
        requires
            forall|b: &[u8]| decode.requires((b,)),
        ensures
            handled(old(self)@, message@, final(self)@, action@),
            final(self)@.wf(),
            fresh_message(old(self)@, message@) ==> match decrypted(
                old(self).keys(),
                message.header,
                message.body@,
            ) {
                None => action is Reject,
                Some(plaintext) => accepted(plaintext, decode, action is Respond),
            },
            old(self)@.phase == Phase::Transport && final(self)@.phase == Phase::Transport
                ==> final(self).keys() == old(self).keys(),
    {
        proof {
            use_type_invariant(&*self);
        }
        let ChannelMessage { addr, header, body } = message;
        if self.is_closed() {
            return WorkerAction::Close;
        }
        if self.last_ack_id < header.sequence {
            let ghost pre = self@;
            // count the request, and the response that it will get
            self.last_response = None;
            self.last_ack_id = header.sequence;
            self.sequence_id = self.sequence_id + 1;
            let request_sequence_id = header.sequence;
            assert(refusal(self@, header, body@) == refusal(pre, header, body@));

            // an answer goes back if the request is accepted, an error if not
            let outcome = process(self, header, body.as_slice(), decode);
            let rejected = outcome.is_err();
            let ghost payload = if outcome is Ok {
                outcome->Ok_0.command@
            } else {
                Seq::<u8>::empty()
            };
            let device_id = self.device_id;
            let session_id = self.session_id;
            let sequence_id = self.sequence_id;
            match response(device_id, session_id, sequence_id, addr, request_sequence_id, outcome) {
                Some(answer) => {
                    proof {
                        lemma_envelope_round_trip(
                            PackedHeader {
                                message_type: if rejected {
                                    MessageType::Error
                                } else {
                                    answer_type(header.message_type)
                                },
                                device_id,
                                session_id,
                                sequence: sequence_id,
                                ack: request_sequence_id,
                            },
                            payload,
                        );
                    }
                    // keep a copy to send again
                    self.last_response = Some(answer.clone());
                    if rejected {
                        WorkerAction::Reject(answer)
                    } else {
                        WorkerAction::Respond(answer)
                    }
                },
                None => {
                    // no answer claims more than a command holds
                    self.close();
                    WorkerAction::Close
                },
            }
        } else {
            match self.repeat(addr, header.sequence) {
                Some(action) => action,
                None => {
                    self.close();
                    WorkerAction::Close
                },
            }
        }
    }

    /// What a repeated request from `addr` with sequence `sequence` gets, or
    /// `None` if it ends the session.
    fn repeat(&self, addr: Endpoint, sequence: u16) -> (r: Option<WorkerAction>)
        ensures
            match self@.last_response {
                Some(last) => if last.addr == addr {
                    if last.ack_id == sequence {
                        r is Some && r->Some_0@ == WorkerActionView::Resend(last)
                    } else {
                        r is Some && r->Some_0@ == WorkerActionView::Ignore
                    }
                } else {
                    r is None
                },
                None => r is None,
            },
    {
        match &self.last_response {
            Some(last_response) => {
                // the repeat must come from where the request came from
                if last_response.addr == addr {
                    if last_response.ack_id == sequence {
                        Some(WorkerAction::Resend(last_response.clone()))
                    } else {
                        Some(WorkerAction::Ignore)
                    }
                } else {
                    None
                }
            },
            None => None,
        }
    }

    /// Whether the session is over.
    pub fn is_closed(&self) -> (closed: bool)
        ensures
            closed == (self@.phase == Phase::Closed),
    {
        self.snow_state.current() == Phase::Closed
    }

    /// The id that the table gave this session.
    pub fn session_id(&self) -> (id: u16)
        ensures
            id == self@.session_id,
    {
        self.session_id
    }

    /// The device that the session belongs to.
    pub fn device_id(&self) -> (id: u32)
        ensures
            id == self@.device_id,
    {
        self.device_id
    }

    /// The sequence of the last response.
    pub fn sequence_id(&self) -> (sequence: u16)
        ensures
            sequence == self@.sequence_id,
    {
        self.sequence_id
    }

    /// The sequence of the last request that was processed.
    pub fn last_ack_id(&self) -> (sequence: u16)
        ensures
            sequence == self@.last_ack_id,
    {
        self.last_ack_id
    }

    /// Where the session stands.
    pub fn phase(&self) -> (phase: Phase)
        ensures
            phase == self@.phase,
    {
        self.snow_state.current()
    }

    /// Ends the session.
    pub(crate) fn close(&mut self)
        ensures
            final(self)@ == old(self)@.closed(),
    {
        proof {
            use_type_invariant(&*self);
        }
        self.snow_state = Noise::Closed;
    }

    /// Moves the Noise state out, which closes the session until another
    /// state is set.
    pub(crate) fn take_noise(&mut self) -> (taken: Noise)
        ensures
            final(self)@ == old(self)@.closed(),
            taken.phase() == old(self)@.phase,
    {
        proof {
            use_type_invariant(&*self);
        }
        self.snow_state.take()
    }

    /// Sets the Noise state.
    pub(crate) fn set_noise(&mut self, noise: Noise)
        ensures
            final(self)@ == old(self)@.in_phase(noise.phase()),
    {
        proof {
            use_type_invariant(&*self);
        }
        self.snow_state = noise;
    }

    /// The transport keys, once the handshake is done.
    pub(crate) fn transport(&self) -> (r: Option<&snow::StatelessTransportState>)
        ensures
            r is Some <==> self@.phase == Phase::Transport,
            r is Some ==> *r->Some_0 == self.keys(),
    {
        match &self.snow_state {
            Noise::Transport(noise) => Some(noise),
            _ => None,
        }
    }

    /// Turns the handshake state, if there is one, into transport state.
    /// `Ok(true)` when it did; `Ok(false)` when there was no handshake state.
    /// In every case but `Ok(true)` the session is closed.
    fn make_transport_mode(&mut self) -> (r: Result<bool, snow::Error>)
        ensures
            final(self)@ == old(self)@.in_phase(final(self)@.phase),
            old(self)@.phase != Phase::Handshake ==> r == Ok::<bool, snow::Error>(false),
            old(self)@.phase == Phase::Handshake ==> r != Ok::<bool, snow::Error>(false),
            r == Ok::<bool, snow::Error>(true) ==> final(self)@.phase == Phase::Transport,
            r != Ok::<bool, snow::Error>(true) ==> final(self)@.phase == Phase::Closed,
    {
        proof {
            use_type_invariant(&*self);
        }
        match self.snow_state.take() {
            Noise::Handshake(handshake) => {
                match crate::noise::into_stateless_transport_mode(handshake) {
                    Ok(transport_state) => {
                        self.snow_state = Noise::Transport(transport_state);
                        Ok(true)
                    },
                    Err(e) => Err(e),
                }
            },
            _ => Ok(false),
        }
    }
}

/// The response to a request with sequence `request_sequence` that came from
/// `addr`, where `outcome` is what processing it gave and `sequence` counts
/// the responses of the session: the datagram of the answer, or, for an
/// error, of an error notice that carries nothing. `None` when the answer
/// claims more bytes than a command can hold.
pub fn response(
    device_id: u32,
    session_id: u16,
    sequence: u16,
    addr: Endpoint,
    request_sequence: u16,
    outcome: Result<ProcessedMessage, ProcessingError>,
) -> (r: Option<Response>)
    ensures
        match outcome {
            Ok(answer) => if answer.command.wf() {
                r is Some && r->Some_0@ == (ResponseView {
                    addr,
                    session_id,
                    ack_id: request_sequence,
                    buf: envelope(
                        PackedHeader {
                            message_type: answer.message_type,
                            device_id,
                            session_id,
                            sequence,
                            ack: request_sequence,
                        },
                        answer.command@,
                    ),
                })
            } else {
                r is None
            },
            Err(_) => r is Some && r->Some_0@ == (ResponseView {
                addr,
                session_id,
                ack_id: request_sequence,
                buf: envelope(
                    PackedHeader {
                        message_type: MessageType::Error,
                        device_id,
                        session_id,
                        sequence,
                        ack: request_sequence,
                    },
                    Seq::<u8>::empty(),
                ),
            }),
        },
{
    let (response_type, command) = match outcome {
        Ok(success) => (success.message_type, success.command),
        Err(_) => (MessageType::Error, EncodedCommand::empty()),
    };
    let header = PackedHeader::new(response_type, device_id, session_id, sequence, request_sequence);
    let mut buf = [0u8; PACKET_SIZE];
    match write_command(&header, &command, &mut buf) {
        Ok(content_size) => {
            let written: &[u8] = &buf;
            let content = slice_to_vec(&written[0..content_size]);
            assert(content@ =~= envelope(header, command@));
            Some(Response { addr, session_id, ack_id: request_sequence, buf: content })
        },
        Err(_) => None,
    }
}

/// Whether `action` says that a request was processed, answered or not.
pub open spec fn processed(action: WorkerActionView) -> bool {
    action is Respond || action is Reject
}

/// Whether `states`, `messages` and `actions` are a run of one worker: each
/// message takes the state before it to the state after it, with its action.
pub open spec fn is_run(
    states: Seq<SessionStateView>,
    messages: Seq<ChannelMessageView>,
    actions: Seq<WorkerActionView>,
) -> bool {
    &&& states.len() == messages.len() + 1
    &&& actions.len() == messages.len()
    &&& forall|i: int|
        #![trigger messages[i]]
        0 <= i < messages.len() ==> handled(states[i], messages[i], states[i + 1], actions[i])
}

/// The same datagram handed to a worker twice is answered twice with the
/// same bytes: the second time from what the worker kept, and without any
/// change to the worker.
pub proof fn lemma_duplicate_idempotence(
    before: SessionStateView,
    message: ChannelMessageView,
    between: SessionStateView,
    first: WorkerActionView,
    after: SessionStateView,
    second: WorkerActionView,
)
    requires
        handled(before, message, between, first),
        first is Respond,
        handled(between, message, after, second),
    ensures
        second == WorkerActionView::Resend(first->Respond_0),
        second->Resend_0.buf == first->Respond_0.buf,
        after == between,
{
}

/// A repeated request that comes from another address than the one the last
/// response went to closes the session, and nothing is sent.
pub proof fn lemma_address_binding(
    pre: SessionStateView,
    message: ChannelMessageView,
    post: SessionStateView,
    action: WorkerActionView,
)
    requires
        handled(pre, message, post, action),
        pre.phase != Phase::Closed,
        message.header.sequence <= pre.last_ack_id,
        pre.last_response is Some,
        pre.last_response->Some_0.addr != message.addr,
    ensures
        action == WorkerActionView::Close,
        post.phase == Phase::Closed,
{
}

/// A repeat of a request older than the last one, from the address that the
/// last response went to, is ignored: nothing is sent and nothing changes.
pub proof fn lemma_stale_repeat_ignored(
    pre: SessionStateView,
    message: ChannelMessageView,
    post: SessionStateView,
    action: WorkerActionView,
)
    requires
        handled(pre, message, post, action),
        pre.wf(),
        pre.phase != Phase::Closed,
        pre.last_response is Some,
        pre.last_response->Some_0.addr == message.addr,
        message.header.sequence < pre.last_ack_id,
    ensures
        action == WorkerActionView::Ignore,
        post == pre,
{
}

/// Along a run, the sequence that a worker has processed last never goes
/// down.
proof fn lemma_last_ack_grows(
    states: Seq<SessionStateView>,
    messages: Seq<ChannelMessageView>,
    actions: Seq<WorkerActionView>,
    i: int,
    j: int,
)
    requires
        is_run(states, messages, actions),
        0 <= i <= j <= messages.len(),
    ensures
        states[i].last_ack_id <= states[j].last_ack_id,
    decreases j - i,
{
    if i < j {
        lemma_last_ack_grows(states, messages, actions, i, j - 1);
        let _ = messages[j - 1];
    }
}

/// Along a run of a worker, the sequences of the requests that it processes
/// are strictly increasing.
pub proof fn lemma_processed_sequences_increase(
    states: Seq<SessionStateView>,
    messages: Seq<ChannelMessageView>,
    actions: Seq<WorkerActionView>,
    i: int,
    j: int,
)
    requires
        is_run(states, messages, actions),
        0 <= i < j < messages.len(),
        processed(actions[i]),
        processed(actions[j]),
    ensures
        messages[i].header.sequence < messages[j].header.sequence,
{
    let _ = messages[i];
    let _ = messages[j];
    lemma_last_ack_grows(states, messages, actions, i + 1, j);
}

} // verus!
