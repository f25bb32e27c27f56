//! Putting a frame together from the pieces in which a connection delivers
//! it.
//!
//! A reader first takes the four bytes of the total length. They say how many
//! bytes the frame has; the reader then takes what the connection hands it,
//! piece by piece, until it has exactly that many. A piece that would take
//! it past the announced length is refused, and so is the empty piece by
//! which a connection says that it has closed.

use crate::messages::message::{spec_split_frame, CodecError, HEADER_LEN};
use crate::wire::{
    le_bytes, lemma_le_bytes_len, lemma_pow256_values, lemma_uint_at_concat, put_bytes, put_u32,
    uint_at,
};
use vstd::prelude::*;

verus! {

/// What became of a piece that was handed to a reader.
#[derive(Debug, Clone, Copy, PartialEq, Eq, Structural)]
pub enum ReadStep {
    /// The piece was taken, and the frame is not yet whole.
    NeedMore,
    /// The piece was taken, and the frame is whole.
    Complete,
    /// The piece was empty: the connection has closed.
    Closed,
    /// The piece is longer than what the frame still lacks.
    Overrun,
}

/// A frame in the making.
#[derive(Debug, Clone)]
pub struct FrameReader {
    buffer: Vec<u8>,
    total: usize,
    max_payload: usize,
}

impl FrameReader {
    /// The bytes taken so far, the length word included.
    pub closed spec fn bytes(&self) -> Seq<u8> {
        self.buffer@
    }

    /// The length that the frame announced.
    pub closed spec fn total(&self) -> nat {
        self.total as nat
    }

    /// The longest payload that the reader was told to accept.
    pub closed spec fn max_payload(&self) -> nat {
        self.max_payload as nat
    }

    /// The reader holds the start of a frame of the announced length, and
    /// the length announces no payload above the maximum.
    pub closed spec fn wf(&self) -> bool {
        &&& HEADER_LEN <= self.total <= u32::MAX
        &&& self.total - HEADER_LEN <= self.max_payload
        &&& 4 <= self.buffer@.len() <= self.total
        &&& self.buffer@.subrange(0, 4) == le_bytes(self.total as nat, 4)
    }

    /// Starts a frame from its length word. A length below the header's, or
    /// one that announces a payload above `max_payload`, is refused.
    pub fn begin(total_length: u32, max_payload: usize) -> (r: Result<FrameReader, CodecError>)
        ensures
            match r {
                Ok(reader) => {
                    &&& HEADER_LEN <= total_length
                    &&& total_length - HEADER_LEN <= max_payload
                    &&& reader.wf()
                    &&& reader.total() == total_length
                    &&& reader.max_payload() == max_payload
                    &&& reader.bytes() == le_bytes(total_length as nat, 4)
                },
                Err(e) => if total_length < HEADER_LEN {
                    e == CodecError::FrameTooShort
                } else {
                    e == CodecError::PayloadTooLong && total_length - HEADER_LEN > max_payload
                },
            },
    {
        if total_length < 6 {
            return Err(CodecError::FrameTooShort);
        }
        if (total_length - 6) as u64 > max_payload as u64 {
            return Err(CodecError::PayloadTooLong);
        }
        let mut buffer: Vec<u8> = Vec::new();
        put_u32(&mut buffer, total_length);
        proof {
            lemma_le_bytes_len(total_length as nat, 4);
            assert(buffer@ =~= le_bytes(total_length as nat, 4));
            assert(buffer@.subrange(0, 4) =~= buffer@);
        }
        Ok(FrameReader { buffer, total: total_length as usize, max_payload })
    }

    /// How many bytes the frame still lacks.
    pub fn missing(&self) -> (n: usize)
        requires
            self.wf(),
        ensures
            n == self.total() - self.bytes().len(),
    {
        self.total - self.buffer.len()
    }

    /// Takes one piece of what the connection delivered.
    pub fn accept(&mut self, chunk: &[u8]) -> (step: ReadStep)
        requires
            old(self).wf(),
        ensures
            final(self).wf(),
            final(self).total() == old(self).total(),
            final(self).max_payload() == old(self).max_payload(),
            match step {
                ReadStep::Closed => chunk@.len() == 0 && final(self).bytes() == old(self).bytes(),
                ReadStep::Overrun => chunk@.len() > old(self).total() - old(self).bytes().len()
                    && final(self).bytes() == old(self).bytes(),
                ReadStep::NeedMore => 0 < chunk@.len() && final(self).bytes() == old(self).bytes()
                    + chunk@ && final(self).bytes().len() < final(self).total(),
                ReadStep::Complete => 0 < chunk@.len() && final(self).bytes() == old(self).bytes()
                    + chunk@ && final(self).bytes().len() == final(self).total(),
            },
    {
        let n = chunk.len();
        if n == 0 {
            return ReadStep::Closed;
        }
        let missing = self.total - self.buffer.len();
        if n > missing {
            return ReadStep::Overrun;
        }
        put_bytes(&mut self.buffer, chunk);
        assert(self.buffer@.subrange(0, 4) =~= old(self).buffer@.subrange(0, 4));
        if n == missing {
            ReadStep::Complete
        } else {
            ReadStep::NeedMore
        }
    }

    /// The bytes of the frame, once it is whole: as many as their first four
    /// announce. The decoder cuts them as the reader did; all it can still
    /// object to is the kind.
    pub fn into_frame(self) -> (frame: Vec<u8>)
        requires
            self.wf(),
            self.bytes().len() == self.total(),
        ensures
            frame@ == self.bytes(),
            uint_at(frame@, 0, 4) == frame@.len(),
            match spec_split_frame(frame@, self.max_payload()) {
                Ok(f) => f.payload == frame@.subrange(HEADER_LEN as int, frame@.len() as int),
                Err(e) => e == CodecError::UnknownMessageType,
            },
    {
        proof {
            let word = le_bytes(self.total as nat, 4);
            lemma_pow256_values();
            lemma_le_bytes_len(self.total as nat, 4);
            let rest = self.buffer@.subrange(4, self.buffer@.len() as int);
            lemma_uint_at_concat(Seq::empty(), self.total as nat, 4, rest);
            assert(Seq::<u8>::empty() + word + rest =~= self.buffer@);
            lemma_whole_frame_splits(self.buffer@, self.max_payload as nat);
        }
        self.buffer
    }
}


/// A frame that has the length its first four bytes announce is cut as they
/// say: the decoder finds it neither too short, nor too long, nor truncated.
pub proof fn lemma_whole_frame_splits(frame: Seq<u8>, max_payload: nat)
    requires
        HEADER_LEN <= frame.len(),
        uint_at(frame, 0, 4) == frame.len(),
        frame.len() - HEADER_LEN <= max_payload,
    ensures
        match spec_split_frame(frame, max_payload) {
            Ok(f) => f.payload == frame.subrange(HEADER_LEN as int, frame.len() as int),
            Err(e) => e == CodecError::UnknownMessageType,
        },
{
}

} // verus!
