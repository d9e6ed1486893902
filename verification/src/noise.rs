//! The Noise handshake and the stateless AEAD transport, which `snow` runs.
//!
//! A handshake message that is written carries a key drawn at random, so
//! nothing here says what its bytes are. Everything else is decided by the
//! state and the bytes handed over: whether a handshake state can be built,
//! what reading a message leaves, which transport keys a handshake gives,
//! what a payload encrypts to and what a ciphertext decrypts to. Each of
//! these has a name, and the calls are said to give what the names stand for.

use vstd::prelude::*;

verus! {

/// The Noise protocol that both endpoints speak.
pub const ENC_PATTERN: &'static str = "Noise_NN_25519_ChaChaPoly_BLAKE2s";

/// The bytes of the authentication tag that closes every ciphertext.
pub const TAG_SIZE: usize = 16;

/// The shortest buffer that a handshake message is written to.
pub const HANDSHAKE_ROOM: usize = 128;

/// `snow::Error`: why a Noise operation failed. Carried through unread.
#[verifier::external_type_specification]
#[verifier::external_body]
pub struct ExNoiseError(snow::Error);

/// `snow::HandshakeState`: the keys and the position of a handshake under
/// way. Carried through unread.
#[verifier::external_type_specification]
#[verifier::external_body]
pub struct ExHandshakeState(snow::HandshakeState);

/// `snow::StatelessTransportState`: the transport keys of a finished
/// handshake. Carried through unread.
#[verifier::external_type_specification]
#[verifier::external_body]
pub struct ExStatelessTransportState(snow::StatelessTransportState);

/// Where an endpoint stands in the life of its session.
#[derive(PartialEq, Eq, Structural, Clone, Copy, Debug)]
pub enum Phase {
    /// Nothing has been sent or received.
    Idle,
    /// The handshake has begun and is not finished.
    Handshake,
    /// The handshake is finished: messages are encrypted.
    Transport,
    /// A failure ended the session. Nothing leaves this phase.
    Closed,
}

/// The Noise state of an endpoint.
pub enum Noise {
    Idle,
    Handshake(snow::HandshakeState),
    Transport(snow::StatelessTransportState),
    Closed,
}

impl Noise {
    /// The phase that this state stands for.
    pub open spec fn phase(&self) -> Phase {
        match self {
            Noise::Idle => Phase::Idle,
            Noise::Handshake(_) => Phase::Handshake,
            Noise::Transport(_) => Phase::Transport,
            Noise::Closed => Phase::Closed,
        }
    }

    /// The handshake state, where there is one.
    pub open spec fn handshake(&self) -> snow::HandshakeState {
        match self {
            Noise::Handshake(state) => *state,
            _ => arbitrary(),
        }
    }

    /// The transport keys, where the handshake is finished.
    pub open spec fn keys(&self) -> snow::StatelessTransportState {
        match self {
            Noise::Transport(state) => *state,
            _ => arbitrary(),
        }
    }

    /// The phase that this state stands for.
    pub fn current(&self) -> (phase: Phase)
        ensures
            phase == self.phase(),
    {
        match self {
            Noise::Idle => Phase::Idle,
            Noise::Handshake(_) => Phase::Handshake,
            Noise::Transport(_) => Phase::Transport,
            Noise::Closed => Phase::Closed,
        }
    }

    /// Moves the state out and leaves `Closed` behind, so that a transition
    /// that fails half-way ends the session.
    pub fn take(&mut self) -> (taken: Noise)
        ensures
            taken == *old(self),
            *final(self) == Noise::Closed,
        no_unwind
    {
        let mut taken = Noise::Closed;
        core::mem::swap(self, &mut taken);
        taken
    }
}

/// Whether a handshake state can be built for the Noise protocol that `name`
/// names, for the side that speaks first if `initiator`, else for the one
/// that answers. Building draws nothing at random: the name decides.
pub uninterp spec fn handshake_builds(name: Seq<char>, initiator: bool) -> bool;

/// The handshake state after `state` has read `message` into a buffer of
/// `room` bytes, or `None` where the message is refused. Reading draws
/// nothing at random: the state, the message and the room decide.
pub uninterp spec fn read_by(state: snow::HandshakeState, message: Seq<u8>, room: nat) -> Option<
    snow::HandshakeState,
>;

/// The transport keys of the handshake state `state`, or `None` where the
/// handshake is not finished.
pub uninterp spec fn transport_of(state: snow::HandshakeState) -> Option<
    snow::StatelessTransportState,
>;

/// The ciphertext of `payload` under the keys `state` and `nonce`, tag
/// included, or `None` where the keys or the nonce do not allow to encrypt.
pub uninterp spec fn sealed(state: snow::StatelessTransportState, nonce: u64, payload: Seq<u8>) -> Option<
    Seq<u8>,
>;

/// The plaintext of `ciphertext` under the keys `state` and `nonce`, or
/// `None` where the ciphertext is not one that these keys made under this
/// nonce.
pub uninterp spec fn opened(
    state: snow::StatelessTransportState,
    nonce: u64,
    ciphertext: Seq<u8>,
) -> Option<Seq<u8>>;

/// The transport keys that the handshake state `state` gives once it has
/// read `message` into a buffer of `room` bytes, or `None` where the message
/// is refused or does not finish the handshake.
pub open spec fn completed(state: snow::HandshakeState, message: Seq<u8>, room: nat) -> Option<
    snow::StatelessTransportState,
> {
    match read_by(state, message, room) {
        Some(after) => transport_of(after),
        None => None,
    }
}

/// `snow::Builder::build_initiator`, on `snow::Builder::new` of the protocol
/// that `name` parses to: the handshake state of the side that speaks first.
/// Whether there is one is a matter of the name alone.
#[verifier::external_body]
pub(crate) fn build_initiator(name: &str) -> (r: Result<snow::HandshakeState, snow::Error>)
    ensures
        r is Ok <==> handshake_builds(name@, true),
{
    snow::Builder::new(name.parse()?).build_initiator()
}

/// `snow::Builder::build_responder`, on `snow::Builder::new` of the protocol
/// that `name` parses to: the handshake state of the side that answers.
/// Whether there is one is a matter of the name alone.
#[verifier::external_body]
pub(crate) fn build_responder(name: &str) -> (r: Result<snow::HandshakeState, snow::Error>)
    ensures
        r is Ok <==> handshake_builds(name@, false),
{
    snow::Builder::new(name.parse()?).build_responder()
}

/// `snow::HandshakeState::write_message`: writes the next handshake message,
/// carrying `payload`, to the start of `message` and returns its length, which
/// is within the buffer. A buffer under `HANDSHAKE_ROOM` bytes is left out:
/// a pattern that sends a static key copies the key's tag without having
/// tested that it fits, and 128 bytes hold the longest key material.
#[verifier::external_body]
pub(crate) fn handshake_write(
    state: &mut snow::HandshakeState,
    payload: &[u8],
    message: &mut [u8],
) -> (r: Result<usize, snow::Error>)
    requires
        old(message)@.len() >= HANDSHAKE_ROOM,
    ensures
        final(message)@.len() == old(message)@.len(),
        r is Ok ==> r->Ok_0 <= old(message)@.len(),
{
    state.write_message(payload, message)
}

/// `snow::HandshakeState::read_message`: reads the peer's handshake message
/// `message`, writes the payload it carries to the start of `payload` and
/// returns the payload's length, which is within that buffer. Whether the
/// message is read, and the state after it, are `read_by`.
#[verifier::external_body]
pub(crate) fn handshake_read(
    state: &mut snow::HandshakeState,
    message: &[u8],
    payload: &mut [u8],
) -> (r: Result<usize, snow::Error>)
    ensures
        final(payload)@.len() == old(payload)@.len(),
        r is Ok ==> r->Ok_0 <= old(payload)@.len(),
        r is Ok <==> read_by(*old(state), message@, old(payload)@.len()) is Some,
        r is Ok ==> Some(*final(state)) == read_by(*old(state), message@, old(payload)@.len()),
{
    state.read_message(message, payload)
}

/// `snow::HandshakeState::into_stateless_transport_mode`: the transport keys
/// of a finished handshake, which are `transport_of`.
#[verifier::external_body]
pub(crate) fn into_stateless_transport_mode(state: snow::HandshakeState) -> (r: Result<
    snow::StatelessTransportState,
    snow::Error,
>)
    ensures
        r is Ok <==> transport_of(state) is Some,
        r is Ok ==> Some(r->Ok_0) == transport_of(state),
{
    state.into_stateless_transport_mode()
}

/// `snow::StatelessTransportState::write_message`: encrypts `payload` under
/// `nonce`, writes the ciphertext to the start of `message` and returns its
/// length: that of the payload and the tag, which every cipher of `snow`
/// appends. The ciphertext is `sealed`. A buffer without room for it is
/// refused.
#[verifier::external_body]
pub(crate) fn transport_write(
    state: &snow::StatelessTransportState,
    nonce: u64,
    payload: &[u8],
    message: &mut [u8],
) -> (r: Result<usize, snow::Error>)
    ensures
        final(message)@.len() == old(message)@.len(),
        r is Ok ==> payload@.len() + TAG_SIZE <= old(message)@.len(),
        r is Ok ==> sealed(*state, nonce, payload@) is Some,
        r is Err ==> payload@.len() + TAG_SIZE > old(message)@.len() || sealed(*state, nonce, payload@) is None,
        r is Ok ==> r->Ok_0 == payload@.len() + TAG_SIZE,
        r is Ok ==> sealed(*state, nonce, payload@) == Some(final(message)@.subrange(0, r->Ok_0 as int)),
{
    state.write_message(nonce, payload, message)
}

/// `snow::StatelessTransportState::read_message`: decrypts the ciphertext
/// `payload` under `nonce`, writes the plaintext to the start of `message`
/// and returns its length: that of the ciphertext without the tag. The
/// plaintext is `opened`. A ciphertext shorter than its tag is refused, and
/// so is a buffer without room for the plaintext.
#[verifier::external_body]
pub(crate) fn transport_read(
    state: &snow::StatelessTransportState,
    nonce: u64,
    payload: &[u8],
    message: &mut [u8],
) -> (r: Result<usize, snow::Error>)
    ensures
        final(message)@.len() == old(message)@.len(),
        r is Ok ==> TAG_SIZE <= payload@.len() && payload@.len() - TAG_SIZE <= old(message)@.len(),
        r is Ok ==> opened(*state, nonce, payload@) is Some,
        r is Err ==> payload@.len() < TAG_SIZE || payload@.len() - TAG_SIZE > old(message)@.len() || opened(*state, nonce, payload@) is None,
        r is Ok ==> r->Ok_0 == payload@.len() - TAG_SIZE,
        r is Ok ==> opened(*state, nonce, payload@) == Some(final(message)@.subrange(0, r->Ok_0 as int)),
{
    state.read_message(nonce, payload, message)
}

/// A handshake state for `ENC_PATTERN`: the initiator's if `initiator`, else
/// the responder's.
pub(crate) fn new_handshake(initiator: bool) -> (r: Result<snow::HandshakeState, snow::Error>)
    ensures
        r is Ok <==> handshake_builds(ENC_PATTERN@, initiator),
{
    if initiator {
        build_initiator(ENC_PATTERN)
    } else {
        build_responder(ENC_PATTERN)
    }
}

} // verus!
