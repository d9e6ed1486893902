//! The fixed header that starts every datagram.

use crate::endian::lemma_u16_be_round_trip;
use crate::endian::lemma_u32_be_round_trip;
use crate::endian::read_u16;
use crate::endian::read_u32;
use crate::endian::u16_from_be;
use crate::endian::u16_to_be;
use crate::endian::u32_from_be;
use crate::endian::u32_to_be;
use crate::endian::write_u16;
use crate::endian::write_u32;
use crate::error::SerializeError;
use vstd::prelude::*;
use vstd::std_specs::convert::FromSpecImpl;
use vstd::std_specs::convert::TryFromSpecImpl;

verus! {

/// The magic number in the first two bytes of every datagram.
pub const PROTOCOL_ID: u16 = 0xDEFA;

/// The protocol version in the third byte of every datagram.
pub const VERSION: u8 = 1;

/// What a datagram is for. On the wire it is one byte:
/// 1 handshake request, 2 handshake response, 3 encrypted message, 4 ack,
/// 5 timeout (session expired), 0xFF error.
#[derive(PartialEq, Eq, Structural, Clone, Copy, Debug)]
pub enum MessageType {
    HandshakeRequest,
    HandshakeResponse,
    EncryptedMessage,
    Ack,
    Timeout,
    Error,
}

impl MessageType {
    /// The byte that stands for this message type on the wire.
    pub open spec fn code(self) -> u8 {
        match self {
            MessageType::HandshakeRequest => 1,
            MessageType::HandshakeResponse => 2,
            MessageType::EncryptedMessage => 3,
            MessageType::Ack => 4,
            MessageType::Timeout => 5,
            MessageType::Error => 0xFF,
        }
    }

    /// The message type that `code` stands for, if any.
    pub open spec fn from_code(code: u8) -> Option<MessageType> {
        if code == 1 {
            Some(MessageType::HandshakeRequest)
        } else if code == 2 {
            Some(MessageType::HandshakeResponse)
        } else if code == 3 {
            Some(MessageType::EncryptedMessage)
        } else if code == 4 {
            Some(MessageType::Ack)
        } else if code == 5 {
            Some(MessageType::Timeout)
        } else if code == 0xFF {
            Some(MessageType::Error)
        } else {
            None
        }
    }

    /// Every message type is found again from its byte.
    pub proof fn lemma_code_round_trip(self)
        ensures
            MessageType::from_code(self.code()) == Some(self),
    {
    }
}

impl TryFrom<u8> for MessageType {
    type Error = SerializeError;

    fn try_from(value: u8) -> (r: Result<Self, SerializeError>) {
        match value {
            1 => Ok(MessageType::HandshakeRequest),
            2 => Ok(MessageType::HandshakeResponse),
            3 => Ok(MessageType::EncryptedMessage),
            4 => Ok(MessageType::Ack),
            5 => Ok(MessageType::Timeout),
            0xFF => Ok(MessageType::Error),
            _ => Err(SerializeError::UnknownMessageType),
        }
    }
}

impl TryFromSpecImpl<u8> for MessageType {
    open spec fn obeys_try_from_spec() -> bool {
        true
    }

    open spec fn try_from_spec(value: u8) -> Result<Self, SerializeError> {
        match MessageType::from_code(value) {
            Some(message_type) => Ok(message_type),
            None => Err(SerializeError::UnknownMessageType),
        }
    }
}

impl From<MessageType> for u8 {
    fn from(val: MessageType) -> (code: u8) {
        match val {
            MessageType::HandshakeRequest => 1,
            MessageType::HandshakeResponse => 2,
            MessageType::EncryptedMessage => 3,
            MessageType::Ack => 4,
            MessageType::Timeout => 5,
            MessageType::Error => 0xFF,
        }
    }
}

impl FromSpecImpl<MessageType> for u8 {
    open spec fn obeys_from_spec() -> bool {
        true
    }

    open spec fn from_spec(val: MessageType) -> u8 {
        val.code()
    }
}

/// The header of a datagram. On the wire it takes 14 bytes, every integer
/// most significant byte first:
/// protocol id (2), version (1), message type (1), device id (4),
/// session id (2), sequence (2), ack (2).
/// The protocol id and the version are constants, so a header in memory
/// holds only the other five.
#[derive(PartialEq, Eq, Structural, Clone, Copy, Debug)]
pub struct PackedHeader {
    pub message_type: MessageType,
    /// The device that the session belongs to.
    pub device_id: u32,
    /// Zero until the server has assigned one.
    pub session_id: u16,
    /// The sender's count of its own messages, from 1.
    pub sequence: u16,
    /// The peer's sequence that this message answers, or zero.
    pub ack: u16,
}

impl PackedHeader {
    /// The length of a header on the wire.
    pub const SIZE: usize = 14;

    /// The 14 bytes of this header on the wire.
    pub open spec fn bytes(self) -> Seq<u8> {
        u16_to_be(PROTOCOL_ID) + seq![VERSION, self.message_type.code()] + u32_to_be(
            self.device_id,
        ) + u16_to_be(self.session_id) + u16_to_be(self.sequence) + u16_to_be(self.ack)
    }

    /// The header that starts `bytes`, or why there is none.
    pub open spec fn parse(bytes: Seq<u8>) -> Result<PackedHeader, SerializeError> {
        if bytes.len() < 14 {
            Err(SerializeError::NotEnough)
        } else if u16_from_be(bytes) != PROTOCOL_ID {
            Err(SerializeError::UnknownProtocol)
        } else if bytes[2] != VERSION {
            Err(SerializeError::UnsupportedVersion)
        } else {
            match MessageType::from_code(bytes[3]) {
                None => Err(SerializeError::UnknownMessageType),
                Some(message_type) => Ok(
                    PackedHeader {
                        message_type,
                        device_id: u32_from_be(bytes.subrange(4, 8)),
                        session_id: u16_from_be(bytes.subrange(8, 10)),
                        sequence: u16_from_be(bytes.subrange(10, 12)),
                        ack: u16_from_be(bytes.subrange(12, 14)),
                    },
                ),
            }
        }
    }

    /// The AEAD nonce of the message that carries this header: the session id
    /// in bits 32 and up, the sequence below.
    pub open spec fn spec_nonce(self) -> u64 {
        ((self.session_id as u64) << 32) | (self.sequence as u64)
    }

    pub fn new(
        message_type: MessageType,
        device_id: u32,
        session_id: u16,
        sequence: u16,
        ack: u16,
    ) -> (header: Self)
        ensures
            header == (PackedHeader { message_type, device_id, session_id, sequence, ack }),
    {
        PackedHeader { message_type, device_id, session_id, sequence, ack }
    }

    /// Writes the header over the first 14 bytes of `buf` and returns 14.
    /// A shorter buffer is left as it was.
    pub fn serialize_info(&self, buf: &mut [u8]) -> (r: Result<usize, SerializeError>)
        ensures
            old(buf)@.len() < 14 ==> r == Err::<usize, SerializeError>(SerializeError::NotEnough)
                && final(buf)@ == old(buf)@,
            old(buf)@.len() >= 14 ==> r == Ok::<usize, SerializeError>(14) && final(buf)@
                == self.bytes() + old(buf)@.subrange(14, old(buf)@.len() as int),
    {
        if buf.len() < PackedHeader::SIZE {
            return Err(SerializeError::NotEnough);
        }
        let ghost before = buf@;
        let (magic, rest) = buf.split_at_mut(2);
        write_u16(magic, PROTOCOL_ID);
        rest[0] = VERSION;
        rest[1] = self.message_type.into();
        let (_, rest) = rest.split_at_mut(2);
        write_u32(rest, self.device_id);
        let (_, rest) = rest.split_at_mut(4);
        write_u16(rest, self.session_id);
        let (_, rest) = rest.split_at_mut(2);
        write_u16(rest, self.sequence);
        let (_, rest) = rest.split_at_mut(2);
        write_u16(rest, self.ack);
        assert(buf@ =~= self.bytes() + before.subrange(14, before.len() as int));
        Ok(PackedHeader::SIZE)
    }

    /// Reads the header that starts `buf`.
    pub fn try_deserialize(buf: &[u8]) -> (r: Result<Self, SerializeError>)
        ensures
            r == Self::parse(buf@),
    {
        if buf.len() >= PackedHeader::SIZE {
            let protocol_id: u16 = read_u16(&buf[0..2]);
            assert(buf@.subrange(0, 2)[0] == buf@[0] && buf@.subrange(0, 2)[1] == buf@[1]);
            if protocol_id != PROTOCOL_ID {
                return Err(SerializeError::UnknownProtocol);
            }
            let version: u8 = buf[2];
            if version != VERSION {
                return Err(SerializeError::UnsupportedVersion);
            }
            let message_type: MessageType = match MessageType::try_from(buf[3]) {
                Ok(message_type) => message_type,
                Err(e) => {
                    return Err(e);
                },
            };
            let device_id: u32 = read_u32(&buf[4..8]);
            let session_id: u16 = read_u16(&buf[8..10]);
            let sequence: u16 = read_u16(&buf[10..12]);
            let ack: u16 = read_u16(&buf[12..14]);
            Ok(PackedHeader { message_type, device_id, session_id, sequence, ack })
        } else {
            Err(SerializeError::NotEnough)
        }
    }

    /// The AEAD nonce of the message that carries this header.
    pub fn nonce(&self) -> (n: u64)
        ensures
            n == self.spec_nonce(),
    {
        ((self.session_id as u64) << 32) | (self.sequence as u64)
    }

    /// A header is read back from its own bytes, whatever follows them.
    pub proof fn lemma_parse_bytes(self, rest: Seq<u8>)
        ensures
            self.bytes().len() == 14,
            PackedHeader::parse(self.bytes() + rest) == Ok::<PackedHeader, SerializeError>(self),
    {
        let bytes = self.bytes() + rest;
        lemma_u16_be_round_trip(PROTOCOL_ID);
        lemma_u32_be_round_trip(self.device_id);
        lemma_u16_be_round_trip(self.session_id);
        lemma_u16_be_round_trip(self.sequence);
        lemma_u16_be_round_trip(self.ack);
        self.message_type.lemma_code_round_trip();
        assert(bytes.subrange(0, 2) =~= u16_to_be(PROTOCOL_ID));
        assert(bytes.subrange(4, 8) =~= u32_to_be(self.device_id));
        assert(bytes.subrange(8, 10) =~= u16_to_be(self.session_id));
        assert(bytes.subrange(10, 12) =~= u16_to_be(self.sequence));
        assert(bytes.subrange(12, 14) =~= u16_to_be(self.ack));
        assert(u16_from_be(bytes) == u16_from_be(bytes.subrange(0, 2)));
    }
}

/// Serializing a header and deserializing the result gives the header back.
pub proof fn lemma_header_round_trip(header: PackedHeader)
    ensures
        PackedHeader::parse(header.bytes()) == Ok::<PackedHeader, SerializeError>(header),
{
    header.lemma_parse_bytes(Seq::empty());
    assert(header.bytes() + Seq::<u8>::empty() =~= header.bytes());
}

/// On a buffer long enough to hold a header, deserializing fails with
/// `UnknownProtocol` exactly when the first two bytes are not the magic
/// number, and with `UnsupportedVersion` exactly when they are and the third
/// byte is not the version.
pub proof fn lemma_protocol_guard(bytes: Seq<u8>)
    requires
        bytes.len() >= 14,
    ensures
        PackedHeader::parse(bytes) == Err::<PackedHeader, SerializeError>(
            SerializeError::UnknownProtocol,
        ) <==> u16_from_be(bytes) != PROTOCOL_ID,
        PackedHeader::parse(bytes) == Err::<PackedHeader, SerializeError>(
            SerializeError::UnsupportedVersion,
        ) <==> u16_from_be(bytes) == PROTOCOL_ID && bytes[2] != VERSION,
{
}

/// Two headers that differ in session id or in sequence have different
/// nonces.
pub proof fn lemma_nonce_unique(a: PackedHeader, b: PackedHeader)
    requires
        a.session_id != b.session_id || a.sequence != b.sequence,
    ensures
        a.spec_nonce() != b.spec_nonce(),
{
    let (session_a, sequence_a) = (a.session_id, a.sequence);
    let (session_b, sequence_b) = (b.session_id, b.sequence);
    assert((((session_a as u64) << 32) | (sequence_a as u64)) == (((session_b as u64) << 32) | (
    sequence_b as u64)) ==> session_a == session_b && sequence_a == sequence_b) by (bit_vector);
}

} // verus!
