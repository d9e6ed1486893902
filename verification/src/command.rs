//! The opaque payload that an envelope carries.

use crate::error::SerializeError;
use vstd::prelude::*;

verus! {

/// The most payload bytes one command can carry.
pub const COMMAND_SIZE: usize = 1400;

/// The most bytes one datagram can carry: header, length prefix and payload.
pub const PACKET_SIZE: usize = 1500;

/// The storage of one command.
pub type Buffer = [u8; COMMAND_SIZE];

/// A payload of at most `COMMAND_SIZE` bytes: the first `size` bytes of `buf`.
#[derive(Clone, Copy, Debug)]
pub struct EncodedCommand {
    pub size: usize,
    pub buf: Buffer,
}

impl View for EncodedCommand {
    type V = Seq<u8>;

    /// The payload bytes.
    open spec fn view(&self) -> Seq<u8> {
        self.buf@.subrange(0, self.size as int)
    }
}

impl EncodedCommand {
    /// The declared size does not run past the storage.
    pub open spec fn wf(&self) -> bool {
        self.size <= COMMAND_SIZE
    }

    /// The command without payload.
    pub fn empty() -> (c: Self)
        ensures
            c.wf(),
            c.size == 0,
            c@ == Seq::<u8>::empty(),
    {
        EncodedCommand { size: 0, buf: [0u8; COMMAND_SIZE] }
    }

    /// The command that carries `payload`, if it fits.
    pub fn from_slice(payload: &[u8]) -> (r: Result<Self, SerializeError>)
        ensures
            payload@.len() <= COMMAND_SIZE ==> r is Ok && r->Ok_0.wf() && r->Ok_0@ == payload@,
            payload@.len() > COMMAND_SIZE ==> r == Err::<Self, SerializeError>(
                SerializeError::TooBig,
            ),
    {
        let size = payload.len();
        if size > COMMAND_SIZE {
            return Err(SerializeError::TooBig);
        }
        let mut buf = [0u8; COMMAND_SIZE];
        let mut i: usize = 0;
        while i < size
            invariant
                i <= size,
                size == payload@.len(),
                size <= COMMAND_SIZE,
                forall|j: int| 0 <= j < i ==> buf@[j] == payload@[j],
            decreases size - i,
        {
            buf[i] = payload[i];
            i += 1;
        }
        let command = EncodedCommand { size, buf };
        assert(command@ =~= payload@);
        Ok(command)
    }

    /// The payload bytes.
    pub fn payload(&self) -> (p: &[u8])
        requires
            self.wf(),
        ensures
            p@ == self@,
    {
        let all: &[u8] = &self.buf;
        &all[0..self.size]
    }
}

} // verus!
