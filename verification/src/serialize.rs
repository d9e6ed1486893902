//! Envelopes: a header, then a payload behind its two-byte length.

use crate::command::EncodedCommand;
use crate::command::COMMAND_SIZE;
use crate::command::PACKET_SIZE;
use crate::endian::lemma_u16_be_round_trip;
use crate::endian::read_u16;
use crate::endian::u16_from_be;
use crate::endian::u16_to_be;
use crate::endian::write_u16;
use crate::error::SerializeError;
use crate::network::MessageType;
use crate::network::PackedHeader;
use vstd::prelude::*;

verus! {

/// The bytes that a length prefix takes.
pub const LENGTH_PREFIX: usize = 2;

/// A payload behind its length: two bytes of length, most significant first,
/// then the payload.
pub open spec fn framed(payload: Seq<u8>) -> Seq<u8> {
    u16_to_be(payload.len() as u16) + payload
}

/// The payload that the length prefix at the start of `bytes` announces, or
/// why there is none. Bytes after the payload are ignored.
pub open spec fn unframed(bytes: Seq<u8>) -> Result<Seq<u8>, SerializeError> {
    if bytes.len() == 0 {
        Err(SerializeError::BufferEmpty)
    } else if bytes.len() < 2 {
        Err(SerializeError::NotEnough)
    } else if bytes.len() < 2 + u16_from_be(bytes) {
        Err(SerializeError::NotEnough)
    } else {
        Ok(bytes.subrange(2, 2 + u16_from_be(bytes)))
    }
}

/// The payload of the command at the start of `bytes`: as `unframed`, but a
/// payload longer than a command can hold is refused.
pub open spec fn command_payload(bytes: Seq<u8>) -> Result<Seq<u8>, SerializeError> {
    match unframed(bytes) {
        Ok(payload) => if payload.len() > COMMAND_SIZE {
            Err(SerializeError::TooBig)
        } else {
            Ok(payload)
        },
        Err(e) => Err(e),
    }
}

/// A whole datagram: the header, then the payload behind its length.
pub open spec fn envelope(header: PackedHeader, payload: Seq<u8>) -> Seq<u8> {
    header.bytes() + framed(payload)
}

/// Whether a payload of `size` bytes fits a command, a datagram and a buffer
/// of `room` bytes, header and length prefix included.
pub open spec fn envelope_fits(size: usize, room: nat) -> bool {
    &&& size <= COMMAND_SIZE
    &&& 14 + 2 + size <= PACKET_SIZE
    &&& 14 + 2 + size <= room
}

/// Writes `encoded` behind its length at the start of `buf` and returns the
/// bytes written. `TooBig` when the buffer is too short or the length does
/// not fit the prefix; the buffer is then left as it was.
pub fn write_non_encrypted(encoded: &[u8], buf: &mut [u8]) -> (r: Result<u16, SerializeError>)
    ensures
        final(buf)@.len() == old(buf)@.len(),
        encoded@.len() + 2 <= old(buf)@.len() && encoded@.len() + 2 <= u16::MAX ==> r == Ok::<
            u16,
            SerializeError,
        >((encoded@.len() + 2) as u16) && final(buf)@ == framed(encoded@) + old(buf)@.subrange(
            encoded@.len() + 2 as int,
            old(buf)@.len() as int,
        ),
        !(encoded@.len() + 2 <= old(buf)@.len() && encoded@.len() + 2 <= u16::MAX) ==> r == Err::<
            u16,
            SerializeError,
        >(SerializeError::TooBig) && final(buf)@ == old(buf)@,
{
    let size = encoded.len();
    if size > 0xFFFF - LENGTH_PREFIX || buf.len() < size + LENGTH_PREFIX {
        return Err(SerializeError::TooBig);
    }
    let ghost before = buf@;
    let mut i: usize = 0;
    while i < size
        invariant
            i <= size,
            size == encoded@.len(),
            size + 2 <= u16::MAX,
            size + 2 <= buf@.len(),
            buf@.len() == before.len(),
            forall|j: int| 0 <= j < i ==> buf@[2 + j] == encoded@[j],
            forall|j: int| 0 <= j < 2 || 2 + i <= j < before.len() ==> buf@[j] == before[j],
        decreases size - i,
    {
        buf[LENGTH_PREFIX + i] = encoded[i];
        i += 1;
    }
    write_u16(buf, size as u16);
    assert(buf@ =~= framed(encoded@) + before.subrange(size + 2, before.len() as int));
    Ok((size + LENGTH_PREFIX) as u16)
}

/// The payload that the length prefix at the start of `buf` announces.
pub fn parse_non_encrypted(buf: &[u8]) -> (r: Result<&[u8], SerializeError>)
    ensures
        match unframed(buf@) {
            Ok(payload) => r is Ok && r->Ok_0@ == payload,
            Err(e) => r == Err::<&[u8], SerializeError>(e),
        },
{
    if buf.len() == 0 {
        return Err(SerializeError::BufferEmpty);
    }
    if buf.len() < LENGTH_PREFIX {
        return Err(SerializeError::NotEnough);
    }
    let payload_size: u16 = read_u16(buf);
    if buf.len() >= payload_size as usize + LENGTH_PREFIX {
        Ok(&buf[LENGTH_PREFIX..LENGTH_PREFIX + payload_size as usize])
    } else {
        Err(SerializeError::NotEnough)
    }
}

/// Writes the payload of `payload` behind its length at the start of `buf`.
fn write(payload: &EncodedCommand, buf: &mut [u8]) -> (r: Result<u16, SerializeError>)
    ensures
        final(buf)@.len() == old(buf)@.len(),
        payload.wf() && payload.size + 2 <= old(buf)@.len() ==> r == Ok::<u16, SerializeError>(
            (payload.size + 2) as u16,
        ) && final(buf)@ == framed(payload@) + old(buf)@.subrange(
            payload.size + 2,
            old(buf)@.len() as int,
        ),
        !(payload.wf() && payload.size + 2 <= old(buf)@.len()) ==> r == Err::<u16, SerializeError>(
            SerializeError::TooBig,
        ) && final(buf)@ == old(buf)@,
{
    if payload.size > COMMAND_SIZE {
        return Err(SerializeError::TooBig);
    }
    write_non_encrypted(payload.payload(), buf)
}

/// Writes the datagram of `header` and `command` at the start of `out` and
/// returns its length. `TooBig` when the command is longer than a command may
/// be or the datagram does not fit a packet or `out`; `out` is then left as
/// it was.
pub fn write_command(header: &PackedHeader, command: &EncodedCommand, out: &mut [u8]) -> (r: Result<
    usize,
    SerializeError,
>)
    ensures
        final(out)@.len() == old(out)@.len(),
        envelope_fits(command.size, old(out)@.len()) ==> r == Ok::<usize, SerializeError>(
            (16 + command.size) as usize,
        ) && final(out)@ == envelope(*header, command@) + old(out)@.subrange(
            16 + command.size,
            old(out)@.len() as int,
        ),
        !envelope_fits(command.size, old(out)@.len()) ==> r == Err::<usize, SerializeError>(
            SerializeError::TooBig,
        ) && final(out)@ == old(out)@,
{
    if command.size > COMMAND_SIZE || out.len() < PackedHeader::SIZE + LENGTH_PREFIX
        + command.size {
        return Err(SerializeError::TooBig);
    }
    let ghost before = out@;
    let (head, body) = out.split_at_mut(PackedHeader::SIZE);
    let written = write(command, body);
    let _ = header.serialize_info(head);
    assert(out@ =~= envelope(*header, command@) + before.subrange(
        16 + command.size,
        before.len() as int,
    ));
    match written {
        Ok(n) => Ok(PackedHeader::SIZE + n as usize),
        Err(e) => Err(e),
    }
}

/// Builds the header from its fields and writes the datagram of that header
/// and `command` at the start of `buf`, as `write_command` does. `TooBig`
/// when the datagram does not fit; `buf` is then left as it was.
pub fn make_new_command(
    message_type: MessageType,
    command: &EncodedCommand,
    buf: &mut [u8],
    device_id: u32,
    session_id: u16,
    sequence: u16,
    ack: u16,
) -> (r: Result<usize, SerializeError>)
    ensures
        final(buf)@.len() == old(buf)@.len(),
        envelope_fits(command.size, old(buf)@.len()) ==> r == Ok::<usize, SerializeError>(
            (16 + command.size) as usize,
        ) && final(buf)@ == envelope(
            PackedHeader { message_type, device_id, session_id, sequence, ack },
            command@,
        ) + old(buf)@.subrange(16 + command.size, old(buf)@.len() as int),
        !envelope_fits(command.size, old(buf)@.len()) ==> r == Err::<usize, SerializeError>(
            SerializeError::TooBig,
        ) && final(buf)@ == old(buf)@,
{
    let header = PackedHeader::new(message_type, device_id, session_id, sequence, ack);
    write_command(&header, command, buf)
}

/// Reads the command at the start of `buf`: a length prefix and that many
/// payload bytes.
pub fn parse_command(buf: &[u8]) -> (r: Result<EncodedCommand, SerializeError>)
    ensures
        match command_payload(buf@) {
            Ok(payload) => r is Ok && r->Ok_0.wf() && r->Ok_0@ == payload,
            Err(e) => r == Err::<EncodedCommand, SerializeError>(e),
        },
{
    match parse_non_encrypted(buf) {
        Ok(payload) => EncodedCommand::from_slice(payload),
        Err(e) => Err(e),
    }
}

/// The length prefix of a payload of at most 65535 bytes announces the
/// payload.
pub proof fn lemma_unframed_framed(payload: Seq<u8>, rest: Seq<u8>)
    requires
        payload.len() <= u16::MAX,
    ensures
        unframed(framed(payload) + rest) == Ok::<Seq<u8>, SerializeError>(payload),
{
    let bytes = framed(payload) + rest;
    lemma_u16_be_round_trip(payload.len() as u16);
    assert(bytes[0] == u16_to_be(payload.len() as u16)[0]);
    assert(bytes[1] == u16_to_be(payload.len() as u16)[1]);
    assert(u16_from_be(bytes) == payload.len());
    assert(bytes.subrange(2, 2 + payload.len() as int) =~= payload);
}

/// What `write_command` wrote, `parse_command` reads back: the body of the
/// datagram of a header and a payload of at most `COMMAND_SIZE` bytes, which
/// is the datagram without its first 14 bytes, holds that payload, and the
/// datagram starts with that header.
pub proof fn lemma_envelope_round_trip(header: PackedHeader, payload: Seq<u8>)
    requires
        payload.len() <= COMMAND_SIZE,
    ensures
        envelope(header, payload).len() == 16 + payload.len(),
        envelope(header, payload).skip(16) == payload,
        PackedHeader::parse(envelope(header, payload)) == Ok::<PackedHeader, SerializeError>(
            header,
        ),
        command_payload(envelope(header, payload).subrange(14, 16 + payload.len() as int))
            == Ok::<Seq<u8>, SerializeError>(payload),
{
    let datagram = envelope(header, payload);
    header.lemma_parse_bytes(framed(payload));
    lemma_unframed_framed(payload, Seq::empty());
    assert(datagram.subrange(14, 16 + payload.len() as int) =~= framed(payload));
    assert(datagram.skip(16) =~= payload);
    assert(framed(payload) + Seq::<u8>::empty() =~= framed(payload));
}

} // verus!
