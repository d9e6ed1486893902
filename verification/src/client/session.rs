//! The session of one device.

use crate::command::EncodedCommand;
use crate::command::COMMAND_SIZE;
use crate::command::PACKET_SIZE;
use crate::error::SerializeError;
use crate::network::MessageType;
use crate::network::PackedHeader;
use crate::noise::completed;
use crate::noise::handshake_builds;
use crate::noise::handshake_read;
use crate::noise::handshake_write;
use crate::noise::into_stateless_transport_mode;
use crate::noise::new_handshake;
use crate::noise::sealed;
use crate::noise::transport_write;
use crate::noise::Noise;
use crate::noise::Phase;
use crate::noise::ENC_PATTERN;
use crate::noise::TAG_SIZE;
use crate::output::output_bytes;
use crate::output::output_from;
use crate::output::OutputVec;
use crate::serialize::command_payload;
use crate::serialize::envelope;
use crate::serialize::framed;
use crate::serialize::lemma_envelope_round_trip;
use crate::serialize::parse_command;
use crate::serialize::write_command;
use crate::serialize::write_non_encrypted;
use vstd::prelude::*;

verus! {

/// Why the session could not go on.
#[derive(Debug)]
pub enum ClientError {
    /// The Noise handshake or the encryption failed.
    Encryption(snow::Error),
    /// A message could not be written or read.
    Serialization(SerializeError),
    /// The session is not in the phase that the call needs, or the message
    /// is not one that this session expects.
    IncorrectState,
}

/// The session of one device with the server.
pub struct Session {
    device_id: u32,
    session_id: u16,
    last_server_message_id: u16,
    sequence_id: u16,
    snow_state: Noise,
}

/// The session of one device, as a value.
pub struct SessionView {
    pub device_id: u32,
    /// Zero until the server has assigned one.
    pub session_id: u16,
    /// The sequence of the last message that the server sent.
    pub last_server_message_id: u16,
    /// The sequence of the last message that the device sent.
    pub sequence_id: u16,
    pub phase: Phase,
}

impl SessionView {
    /// The session of a device that has not spoken yet.
    pub open spec fn start(device_id: u32) -> SessionView {
        SessionView {
            device_id,
            session_id: 0,
            last_server_message_id: 0,
            sequence_id: 0,
            phase: Phase::Idle,
        }
    }

    /// The session once the handshake request is written.
    pub open spec fn begun(self) -> SessionView {
        SessionView { sequence_id: 1, phase: Phase::Handshake, ..self }
    }

    /// This session after a failure that ends it.
    pub open spec fn closed(self) -> SessionView {
        SessionView { phase: Phase::Closed, ..self }
    }

    /// The header of the handshake request.
    pub open spec fn request_header(self) -> PackedHeader {
        PackedHeader {
            message_type: MessageType::HandshakeRequest,
            device_id: self.device_id,
            session_id: 0,
            sequence: 1,
            ack: 0,
        }
    }

    /// Whether the handshake response with header `hrh` and body `body` is
    /// refused before the handshake state reads it, and with what: a body
    /// that holds no command, a header that is not the response to this
    /// device's request, or a session that has no handshake under way.
    pub open spec fn refuses_handshake(self, hrh: PackedHeader, body: Seq<u8>) -> Option<ClientError> {
        if command_payload(body) is Err {
            Some(ClientError::Serialization(command_payload(body)->Err_0))
        } else if hrh.message_type != MessageType::HandshakeResponse || hrh.device_id
            != self.device_id || hrh.session_id == 0 || hrh.ack != 1 || self.phase
            != Phase::Handshake {
            Some(ClientError::IncorrectState)
        } else {
            None
        }
    }

    /// The session after the handshake response with header `hrh`.
    pub open spec fn established(self, hrh: PackedHeader) -> SessionView {
        SessionView {
            session_id: hrh.session_id,
            last_server_message_id: hrh.sequence,
            phase: Phase::Transport,
            ..self
        }
    }

    /// Whether a reading of `size` encoded bytes is refused before it is
    /// encrypted, and with what: a session that is not in transport or has
    /// used up its sequences, or a reading too long for a command.
    pub open spec fn refuses_reading(self, size: nat) -> Option<ClientError> {
        if self.phase != Phase::Transport || self.sequence_id == u16::MAX {
            Some(ClientError::IncorrectState)
        } else if size + 2 > COMMAND_SIZE {
            Some(ClientError::Serialization(SerializeError::TooBig))
        } else {
            None
        }
    }

    /// The length of the datagram that carries a reading of `size` encoded
    /// bytes: the header, the length of the ciphertext, and the ciphertext of
    /// the reading behind its own length, which ends with the tag.
    pub open spec fn message_len(size: nat) -> nat {
        14 + 2 + (2 + size) + TAG_SIZE as nat
    }

    /// The header of the next encrypted message.
    pub open spec fn message_header(self) -> PackedHeader {
        PackedHeader {
            message_type: MessageType::EncryptedMessage,
            device_id: self.device_id,
            session_id: self.session_id,
            sequence: (self.sequence_id + 1) as u16,
            ack: self.last_server_message_id,
        }
    }

    /// Whether `hrh` acknowledges the last message of this session: the
    /// session is in transport, and the header is an ack for this device and
    /// session that names the last sequence sent.
    pub open spec fn acknowledged_by(self, hrh: PackedHeader) -> bool {
        &&& self.phase == Phase::Transport
        &&& hrh.message_type == MessageType::Ack
        &&& hrh.device_id == self.device_id
        &&& hrh.session_id == self.session_id
        &&& hrh.ack == self.sequence_id
    }
}

/// Whether `bytes` is one datagram with `header` and some payload that a
/// command can hold.
pub open spec fn is_datagram(bytes: Seq<u8>, header: PackedHeader) -> bool {
    &&& 16 <= bytes.len() <= 16 + COMMAND_SIZE
    &&& bytes == envelope(header, bytes.skip(16))
}

impl View for Session {
    type V = SessionView;

    closed spec fn view(&self) -> SessionView {
        SessionView {
            device_id: self.device_id,
            session_id: self.session_id,
            last_server_message_id: self.last_server_message_id,
            sequence_id: self.sequence_id,
            phase: self.snow_state.phase(),
        }
    }
}

impl Session {
    /// A session that has not spoken yet has sent and seen nothing.
    #[verifier::type_invariant]
    spec fn fresh_until_used(self) -> bool {
        self.snow_state is Idle ==> self.sequence_id == 0
    }

    /// The handshake state of the session, while the handshake is under way.
    pub closed spec fn handshake(&self) -> snow::HandshakeState {
        self.snow_state.handshake()
    }

    /// The transport keys of the session, once the handshake is done.
    pub closed spec fn keys(&self) -> snow::StatelessTransportState {
        self.snow_state.keys()
    }

    /// The ciphertext of the next message if it carries `reading`: the
    /// reading behind its length, encrypted under the nonce of the message's
    /// header. `None` where the ciphertext would not fit a command, or the
    /// keys or the nonce do not allow to encrypt.
    pub open spec fn encrypts(&self, reading: Seq<u8>) -> Option<Seq<u8>> {
        if 2 + reading.len() + TAG_SIZE > COMMAND_SIZE {
            None
        } else {
            sealed(self.keys(), self@.message_header().spec_nonce(), framed(reading))
        }
    }

    pub fn new(device_id: u32) -> (session: Self)
        ensures
            session@ == SessionView::start(device_id),
    {
        Session {
            device_id,
            session_id: 0,
            last_server_message_id: 0,
            sequence_id: 0,
            snow_state: Noise::Idle,
        }
    }

    /// Starts the handshake and returns the handshake request to send.
    /// Only a session that has not spoken yet can do so. Any failure closes
    /// the session.
    pub fn initiate_handshake(&mut self) -> (r: Result<OutputVec, ClientError>)
        ensures
            old(self)@.phase != Phase::Idle ==> r is Err && r->Err_0 == ClientError::IncorrectState,
            !handshake_builds(ENC_PATTERN@, true) ==> r is Err,
            match r {
                Ok(request) => {
                    &&& old(self)@.phase == Phase::Idle
                    &&& final(self)@ == old(self)@.begun()
                    &&& is_datagram(output_bytes(request), old(self)@.request_header())
                },
                Err(e) => {
                    &&& final(self)@ == old(self)@.closed()
                    &&& old(self)@.phase == Phase::Idle ==> e is Encryption
                },
            },
    {
        proof {
            use_type_invariant(&*self);
        }
        match self.snow_state.take() {
            Noise::Idle => {},
            _ => {
                return Err(ClientError::IncorrectState);
            },
        }
        let mut initiator = match new_handshake(true) {
            Ok(initiator) => initiator,
            Err(e) => {
                return Err(ClientError::Encryption(e));
            },
        };

        // the first handshake message
        let mut handshake_buf = [0u8; COMMAND_SIZE];
        let nothing: [u8; 0] = [];
        let handshake_buf_size = match handshake_write(&mut initiator, &nothing, &mut handshake_buf) {
            Ok(n) => n,
            Err(e) => {
                return Err(ClientError::Encryption(e));
            },
        };
        let handshake_command = EncodedCommand { size: handshake_buf_size, buf: handshake_buf };
        let handshake_header = PackedHeader::new(
            MessageType::HandshakeRequest,
            self.device_id,
            0,
            self.sequence_id + 1,
            0,
        );
        proof {
            lemma_envelope_round_trip(handshake_header, handshake_command@);
        }
        match datagram(&handshake_header, &handshake_command) {
            Ok(request) => {
                self.sequence_id = self.sequence_id + 1;
                self.snow_state = Noise::Handshake(initiator);
                Ok(request)
            },
            Err(e) => Err(ClientError::Serialization(e)),
        }
    }

    /// Reads the handshake response and moves the session to transport under
    /// the session id that the server assigned. Any failure closes the
    /// session.
    pub fn receive_handshake(&mut self, hrh: PackedHeader, server_body: &[u8]) -> (r: Result<
        (),
        ClientError,
    >)
        ensures
            match old(self)@.refuses_handshake(hrh, server_body@) {
                Some(e) => r == Err::<(), ClientError>(e),
                None => match completed(
                    old(self).handshake(),
                    command_payload(server_body@)->Ok_0,
                    COMMAND_SIZE as nat,
                ) {
                    Some(keys) => r is Ok && final(self).keys() == keys,
                    None => r is Err && r->Err_0 is Encryption,
                },
            },
            r is Ok ==> final(self)@ == old(self)@.established(hrh),
            r is Err ==> final(self)@ == old(self)@.closed(),
    {
        proof {
            use_type_invariant(&*self);
        }
        let noise_state = self.snow_state.take();
        let server_body = match parse_command(server_body) {
            Ok(command) => command,
            Err(e) => {
                return Err(ClientError::Serialization(e));
            },
        };
        if hrh.message_type != MessageType::HandshakeResponse || hrh.device_id != self.device_id
            || hrh.session_id == 0 || hrh.ack != 1 {
            return Err(ClientError::IncorrectState);
        }
        // read the handshake message and finish the handshake

        if let Noise::Handshake(mut initiator) = noise_state {
            let mut read_buf = [0u8; COMMAND_SIZE];
            match handshake_read(&mut initiator, server_body.payload(), &mut read_buf) {
                Ok(_) => {},
                Err(e) => {
                    return Err(ClientError::Encryption(e));
                },
            }
            match into_stateless_transport_mode(initiator) {
                Ok(transport) => {
                    self.session_id = hrh.session_id;
                    self.last_server_message_id = hrh.sequence;
                    self.snow_state = Noise::Transport(transport);
                    Ok(())
                },
                Err(e) => Err(ClientError::Encryption(e)),
            }
        } else {
            Err(ClientError::IncorrectState)
        }
    }

    /// Builds the next encrypted message, which carries `reading`: the
    /// encoded reading behind its length, encrypted under the nonce of the
    /// header. Any failure closes the session.
    pub fn temperature_message(&mut self, reading: &[u8]) -> (r: Result<OutputVec, ClientError>)
        ensures
            match old(self)@.refuses_reading(reading@.len()) {
                Some(e) => r is Err && r->Err_0 == e,
                None => match old(self).encrypts(reading@) {
                    Some(ciphertext) => r is Ok && output_bytes(r->Ok_0) == envelope(
                        old(self)@.message_header(),
                        ciphertext,
                    ),
                    None => r is Err && r->Err_0 is Encryption,
                },
            },
            match r {
                Ok(message) => {
                    &&& final(self)@ == (SessionView {
                        sequence_id: (old(self)@.sequence_id + 1) as u16,
                        ..old(self)@
                    })
                    &&& final(self).keys() == old(self).keys()
                    &&& is_datagram(output_bytes(message), old(self)@.message_header())
                    &&& output_bytes(message).len() == SessionView::message_len(reading@.len())
                },
                Err(_) => final(self)@ == old(self)@.closed(),
            },
    {
        proof {
            use_type_invariant(&*self);
        }
        let noise = match self.snow_state.take() {
            Noise::Transport(noise) => noise,
            _ => {
                return Err(ClientError::IncorrectState);
            },
        };
        if self.sequence_id == u16::MAX {
            return Err(ClientError::IncorrectState);
        }
        // the reading behind its length

        let mut tmp_buf = [0u8; COMMAND_SIZE];
        let inf_size = match write_non_encrypted(reading, &mut tmp_buf) {
            Ok(n) => n as usize,
            Err(e) => {
                return Err(ClientError::Serialization(e));
            },
        };
        let header = PackedHeader::new(
            MessageType::EncryptedMessage,
            self.device_id,
            self.session_id,
            self.sequence_id + 1,
            self.last_server_message_id,
        );

        // encrypt it
        let mut enc_buf = [0u8; COMMAND_SIZE];
        let plain: &[u8] = &tmp_buf;
        assert(plain@.subrange(0, inf_size as int) =~= framed(reading@));
        let enc_size = match transport_write(
            &noise,
            header.nonce(),
            &plain[0..inf_size],
            &mut enc_buf,
        ) {
            Ok(n) => n,
            Err(e) => {
                return Err(ClientError::Encryption(e));
            },
        };
        let temp_command = EncodedCommand { size: enc_size, buf: enc_buf };
        proof {
            lemma_envelope_round_trip(header, temp_command@);
        }
        match datagram(&header, &temp_command) {
            Ok(message) => {
                self.sequence_id = self.sequence_id + 1;
                self.snow_state = Noise::Transport(noise);
                Ok(message)
            },
            Err(e) => Err(ClientError::Serialization(e)),
        }
    }

    /// The device that the session belongs to.
    pub fn device_id(&self) -> (id: u32)
        ensures
            id == self@.device_id,
    {
        self.device_id
    }

    /// The id that the server assigned, or zero.
    pub fn session_id(&self) -> (id: u16)
        ensures
            id == self@.session_id,
    {
        self.session_id
    }

    /// The sequence of the last message that the device sent.
    pub fn sequence_id(&self) -> (sequence: u16)
        ensures
            sequence == self@.sequence_id,
    {
        self.sequence_id
    }

    /// The sequence of the last message that the server sent.
    pub fn last_server_message_id(&self) -> (sequence: u16)
        ensures
            sequence == self@.last_server_message_id,
    {
        self.last_server_message_id
    }

    /// Where the session stands.
    pub fn phase(&self) -> (phase: Phase)
        ensures
            phase == self@.phase,
    {
        self.snow_state.current()
    }

    /// Takes the server's ack of the last message. A header that does not
    /// acknowledge it closes the session.
    pub fn receive_ack(&mut self, hrh: PackedHeader, _body: &[u8]) -> (r: Result<(), ClientError>)
        ensures
            old(self)@.acknowledged_by(hrh) ==> r == Ok::<(), ClientError>(()) && final(self)@ == (
            SessionView { last_server_message_id: hrh.sequence, ..old(self)@ }),
            r is Ok ==> final(self).keys() == old(self).keys(),
            !old(self)@.acknowledged_by(hrh) ==> r == Err::<(), ClientError>(ClientError::IncorrectState)
                && final(self)@ == old(self)@.closed(),
    {
        proof {
            use_type_invariant(&*self);
        }
        let in_transport = match &self.snow_state {
            Noise::Transport(_) => true,
            _ => false,
        };
        if in_transport && hrh.message_type == MessageType::Ack && hrh.device_id == self.device_id
            && hrh.session_id == self.session_id && hrh.ack == self.sequence_id {
            self.last_server_message_id = hrh.sequence;
            Ok(())
        } else {
            self.snow_state = Noise::Closed;
            Err(ClientError::IncorrectState)
        }
    }
}

/// The datagram of `header` and `command`. `TooBig` when the command claims
/// more bytes than a command can hold.
pub fn datagram(header: &PackedHeader, command: &EncodedCommand) -> (r: Result<
    OutputVec,
    SerializeError,
>)
    ensures
        command.wf() ==> r is Ok && output_bytes(r->Ok_0) == envelope(*header, command@),
        !command.wf() ==> r is Err && r->Err_0 == SerializeError::TooBig,
{
    let mut output = [0u8; PACKET_SIZE];
    match write_command(header, command, &mut output) {
        Ok(size) => {
            let written: &[u8] = &output;
            assert(written@.subrange(0, size as int) =~= envelope(*header, command@));
            match output_from(&written[0..size]) {
                Ok(vec) => Ok(vec),
                Err(()) => Err(SerializeError::TooBig),
            }
        },
        Err(e) => Err(e),
    }
}

/// Splits a datagram into its header and the bytes after it. `TooBig` when
/// more bytes follow the header than a datagram can hold.
pub fn parse_request(buf: &[u8]) -> (r: Result<(PackedHeader, OutputVec), ClientError>)
    ensures
        match PackedHeader::parse(buf@) {
            Ok(header) => if buf@.len() - 14 <= PACKET_SIZE {
                r is Ok && r->Ok_0.0 == header && output_bytes(r->Ok_0.1) == buf@.subrange(
                    14,
                    buf@.len() as int,
                )
            } else {
                r is Err && r->Err_0 == ClientError::Serialization(SerializeError::TooBig)
            },
            Err(e) => r is Err && r->Err_0 == ClientError::Serialization(e),
        },
{
    let header: PackedHeader = match PackedHeader::try_deserialize(buf) {
        Ok(header) => header,
        Err(e) => {
            return Err(ClientError::Serialization(e));
        },
    };
    match output_from(&buf[PackedHeader::SIZE..buf.len()]) {
        Ok(buffer) => Ok((header, buffer)),
        Err(()) => Err(ClientError::Serialization(SerializeError::TooBig)),
    }
}

} // verus!
