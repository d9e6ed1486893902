//! What the worker makes of one request.

use crate::command::EncodedCommand;
use crate::command::COMMAND_SIZE;
use crate::error::SerializeError;
use crate::network::MessageType;
use crate::network::PackedHeader;
use crate::noise::handshake_read;
use crate::noise::handshake_write;
use crate::noise::opened;
use crate::noise::transport_read;
use crate::noise::Noise;
use crate::noise::Phase;
use crate::noise::TAG_SIZE;
use crate::serialize::command_payload;
use crate::serialize::parse_command;
use crate::serialize::parse_non_encrypted;
use crate::serialize::unframed;
use crate::server::session::SessionState;
use crate::server::session::SessionStateView;
use vstd::prelude::*;

verus! {

/// Why a request was not answered as asked.
#[derive(Debug)]
pub enum ProcessingError {
    /// A message type that a server never receives.
    NotExpectedMessage(MessageType),
    /// A message type that the server does not handle.
    NotImplemented(MessageType),
    /// A handshake request that names a session, or that comes when the
    /// handshake is over.
    IncorrectHandshake { session_id: u16, seq: u16 },
    /// The body, or the plaintext in it, is not what the format asks for.
    MessageCorrupted(SerializeError),
    /// An encrypted message before the handshake is done.
    IncorrectState,
    /// The Noise handshake or the decryption failed.
    EncryptionError(snow::Error),
}

/// The answer to a request: the type of the response and what it carries.
#[derive(Debug)]
pub struct ProcessedMessage {
    pub message_type: MessageType,
    pub command: EncodedCommand,
}

/// The error that a request gets before any cryptography is tried, if it
/// gets one: by its type, by the session id it names, by the phase of the
/// session, or by a body that holds no command.
pub open spec fn refusal(state: SessionStateView, header: PackedHeader, body: Seq<u8>) -> Option<
    ProcessingError,
> {
    match header.message_type {
        MessageType::HandshakeRequest => {
            if header.session_id != 0 {
                Some(
                    ProcessingError::IncorrectHandshake {
                        session_id: state.session_id,
                        seq: header.sequence,
                    },
                )
            } else if command_payload(body) is Err {
                Some(ProcessingError::MessageCorrupted(command_payload(body)->Err_0))
            } else if state.phase != Phase::Handshake {
                Some(
                    ProcessingError::IncorrectHandshake {
                        session_id: state.session_id,
                        seq: header.sequence,
                    },
                )
            } else {
                None
            }
        },
        MessageType::HandshakeResponse => Some(
            ProcessingError::NotExpectedMessage(header.message_type),
        ),
        MessageType::EncryptedMessage => {
            if state.phase != Phase::Transport {
                Some(ProcessingError::IncorrectState)
            } else if command_payload(body) is Err {
                Some(ProcessingError::MessageCorrupted(command_payload(body)->Err_0))
            } else {
                None
            }
        },
        MessageType::Ack => Some(ProcessingError::NotImplemented(header.message_type)),
        MessageType::Timeout => Some(ProcessingError::NotExpectedMessage(header.message_type)),
        MessageType::Error => Some(ProcessingError::NotImplemented(header.message_type)),
    }
}

/// Whether the command in `body` is too short for the ciphertext of any
/// plaintext that holds a length: it has no room for the length and the tag.
pub open spec fn too_short(body: Seq<u8>) -> bool {
    command_payload(body) is Ok && command_payload(body)->Ok_0.len() < 2 + TAG_SIZE
}

/// Whether `answer` is the answer that a request of type `request` gets when
/// it is accepted: a handshake response that carries a command, or an ack
/// that carries none.
pub open spec fn answers(request: MessageType, answer: ProcessedMessage) -> bool {
    match request {
        MessageType::HandshakeRequest => answer.message_type == MessageType::HandshakeResponse
            && answer.command.wf(),
        MessageType::EncryptedMessage => answer.message_type == MessageType::Ack
            && answer.command.size == 0,
        _ => false,
    }
}

/// Whether the plaintext `plaintext` is accepted, if `ok`, or turned down, if
/// not: it is accepted where it holds a payload behind its length and
/// `decode` says of that payload that it is a reading.
pub open spec fn accepted<F: Fn(&[u8]) -> bool>(plaintext: Seq<u8>, decode: &F, ok: bool) -> bool {
    match unframed(plaintext) {
        Err(_) => !ok,
        Ok(payload) => exists|p: &[u8]| #![trigger p@] p@ == payload && decode.ensures((p,), ok),
    }
}

/// Whether `r` is the answer to an encrypted message whose plaintext is
/// `plaintext`: an ack that carries nothing where the plaintext is accepted,
/// else the error of the length prefix, or `NotParsed` for a payload that
/// is no reading.
pub open spec fn answered<F: Fn(&[u8]) -> bool>(
    plaintext: Seq<u8>,
    decode: &F,
    r: Result<ProcessedMessage, ProcessingError>,
) -> bool {
    &&& accepted(plaintext, decode, r is Ok)
    &&& match r {
        Ok(answer) => answers(MessageType::EncryptedMessage, answer),
        Err(e) => e == ProcessingError::MessageCorrupted(
            match unframed(plaintext) {
                Err(e) => e,
                Ok(_) => SerializeError::NotParsed,
            },
        ),
    }
}

/// The plaintext of the encrypted message with `header` and `body` under
/// the transport keys `keys`: what the command in the body decrypts to under
/// the nonce of the header, or `None` where it does not decrypt.
pub open spec fn decrypted(
    keys: snow::StatelessTransportState,
    header: PackedHeader,
    body: Seq<u8>,
) -> Option<Seq<u8>> {
    let ciphertext = command_payload(body)->Ok_0;
    if ciphertext.len() < TAG_SIZE {
        None
    } else {
        opened(keys, header.spec_nonce(), ciphertext)
    }
}

/// Whether `r` is the answer to the encrypted message with `header` and
/// `body` in a session with the transport keys `keys`: an encryption error
/// where the message does not decrypt, else the answer to its plaintext.
pub open spec fn encrypted_outcome<F: Fn(&[u8]) -> bool>(
    keys: snow::StatelessTransportState,
    header: PackedHeader,
    body: Seq<u8>,
    decode: &F,
    r: Result<ProcessedMessage, ProcessingError>,
) -> bool {
    match decrypted(keys, header, body) {
        None => r is Err && r->Err_0 is EncryptionError,
        Some(plaintext) => answered(plaintext, decode, r),
    }
}

/// The answer to an encrypted message whose plaintext is `plaintext`: the
/// plaintext holds a payload behind its length, and `decode` says whether the
/// payload is a reading. An ack if it is.
pub fn accept_plaintext<F: Fn(&[u8]) -> bool>(plaintext: &[u8], decode: &F) -> (r: Result<
    ProcessedMessage,
    ProcessingError,
>)
    requires
        forall|b: &[u8]| decode.requires((b,)),
    ensures
        answered(plaintext@, decode, r),
{
    match parse_non_encrypted(plaintext) {
        Ok(payload) => {
            assert(payload@ == unframed(plaintext@)->Ok_0);
            if decode(payload) {
                Ok(
                    ProcessedMessage {
                        message_type: MessageType::Ack,
                        command: EncodedCommand::empty(),
                    },
                )
            } else {
                Err(ProcessingError::MessageCorrupted(SerializeError::NotParsed))
            }
        },
        Err(e) => Err(ProcessingError::MessageCorrupted(e)),
    }
}

/// Answers one request of a session.
///
/// A handshake request is read by the responder, which writes the handshake
/// response and moves to transport. An encrypted message is decrypted under
/// the nonce of its header and its plaintext handed to `accept_plaintext`.
/// Every other message type is an error, and every error closes the session.
pub fn process<F: Fn(&[u8]) -> bool>(
    session_state: &mut SessionState,
    header: PackedHeader,
    body: &[u8],
    decode: &F,
) -> (r: Result<ProcessedMessage, ProcessingError>)
    requires
        forall|b: &[u8]| decode.requires((b,)),
    ensures
        final(session_state)@ == old(session_state)@.in_phase(final(session_state)@.phase),
        r is Ok ==> final(session_state)@.phase == Phase::Transport,
        r is Err ==> final(session_state)@.phase == Phase::Closed,
        match refusal(old(session_state)@, header, body@) {
            Some(e) => r == Err::<ProcessedMessage, ProcessingError>(e),
            None => if header.message_type == MessageType::EncryptedMessage {
                encrypted_outcome(old(session_state).keys(), header, body@, decode, r)
            } else {
                match r {
                    Ok(answer) => answers(header.message_type, answer),
                    Err(e) => e is EncryptionError,
                }
            },
        },
        header.message_type == MessageType::EncryptedMessage && r is Ok
            ==> final(session_state).keys() == old(session_state).keys(),
        header.message_type == MessageType::EncryptedMessage && too_short(body@) ==> r is Err,
{
    let r = match header.message_type {
        MessageType::HandshakeRequest => handshake_request(session_state, header, body),
        MessageType::HandshakeResponse => Err(
            ProcessingError::NotExpectedMessage(header.message_type),
        ),
        MessageType::EncryptedMessage => encrypted_message(session_state, header, body, decode),
        MessageType::Ack => Err(ProcessingError::NotImplemented(header.message_type)),
        MessageType::Timeout => Err(ProcessingError::NotExpectedMessage(header.message_type)),
        MessageType::Error => Err(ProcessingError::NotImplemented(header.message_type)),
    };
    if r.is_err() {
        session_state.close();
    }
    r
}

/// The responder's half of the handshake. On an error the session may be
/// left in any phase: `process` closes it.
fn handshake_request(session_state: &mut SessionState, header: PackedHeader, body: &[u8]) -> (r:
    Result<ProcessedMessage, ProcessingError>)
    requires
        header.message_type == MessageType::HandshakeRequest,
    ensures
        final(session_state)@ == old(session_state)@.in_phase(final(session_state)@.phase),
        r is Ok ==> final(session_state)@.phase == Phase::Transport,
        match refusal(old(session_state)@, header, body@) {
            Some(e) => r == Err::<ProcessedMessage, ProcessingError>(e),
            None => match r {
                Ok(answer) => answers(header.message_type, answer),
                Err(e) => e is EncryptionError,
            },
        },
{
    // the session must not be open yet
    if header.session_id != 0 {
        return Err(
            ProcessingError::IncorrectHandshake {
                session_id: session_state.session_id(),
                seq: header.sequence,
            },
        );
    }
    let handshake_body = match parse_command(body) {
        Ok(command) => command,
        Err(e) => {
            return Err(ProcessingError::MessageCorrupted(e));
        },
    };
    let mut noise = match session_state.take_noise() {
        Noise::Handshake(noise) => noise,
        _ => {
            return Err(
                ProcessingError::IncorrectHandshake {
                    session_id: session_state.session_id(),
                    seq: header.sequence,
                },
            );
        },
    };
    let mut read_buf = [0u8; COMMAND_SIZE];
    match handshake_read(&mut noise, handshake_body.payload(), &mut read_buf) {
        Ok(_) => {},
        Err(e) => {
            return Err(ProcessingError::EncryptionError(e));
        },
    }
    let mut write_buf = [0u8; COMMAND_SIZE];
    let nothing: [u8; 0] = [];
    let write_size = match handshake_write(&mut noise, &nothing, &mut write_buf) {
        Ok(n) => n,
        Err(e) => {
            return Err(ProcessingError::EncryptionError(e));
        },
    };
    session_state.set_noise(Noise::Handshake(noise));
    match session_state.make_transport_mode() {
        Ok(true) => Ok(
            ProcessedMessage {
                message_type: MessageType::HandshakeResponse,
                command: EncodedCommand { size: write_size, buf: write_buf },
            },
        ),
        Ok(false) => Err(ProcessingError::IncorrectState),
        Err(e) => Err(ProcessingError::EncryptionError(e)),
    }
}

/// Decrypts one message of an established session and answers it.
fn encrypted_message<F: Fn(&[u8]) -> bool>(
    session_state: &SessionState,
    header: PackedHeader,
    body: &[u8],
    decode: &F,
) -> (r: Result<ProcessedMessage, ProcessingError>)
    requires
        header.message_type == MessageType::EncryptedMessage,
        forall|b: &[u8]| decode.requires((b,)),
    ensures
        r is Ok ==> session_state@.phase == Phase::Transport,
        match refusal(session_state@, header, body@) {
            Some(e) => r == Err::<ProcessedMessage, ProcessingError>(e),
            None => encrypted_outcome(session_state.keys(), header, body@, decode, r),
        },
        too_short(body@) ==> r is Err,
{
    let noise = match session_state.transport() {
        Some(noise) => noise,
        None => {
            return Err(ProcessingError::IncorrectState);
        },
    };
    let encrypted_body = match parse_command(body) {
        Ok(command) => command,
        Err(e) => {
            return Err(ProcessingError::MessageCorrupted(e));
        },
    };
    let mut read_buf = [0u8; COMMAND_SIZE];
    let size = match transport_read(noise, header.nonce(), encrypted_body.payload(), &mut read_buf) {
        Ok(n) => n,
        Err(e) => {
            return Err(ProcessingError::EncryptionError(e));
        },
    };
    let plaintext: &[u8] = &read_buf;
    accept_plaintext(&plaintext[0..size], decode)
}

} // verus!
