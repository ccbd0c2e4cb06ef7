//! Feeding the engine in blocks of one size.
//!
//! What the engine puts out can depend on where its writes end. So the library never hands it
//! the caller's cuts: whatever comes in, in one buffer or in many chunks, goes to the engine in
//! blocks of `BLOCK_SIZE` bytes and a shorter last one. Bytes that do not fill a block wait
//! here until they do, so no more than one block is ever held back.

use vstd::prelude::*;
use vstd::slice::slice_subrange;
use crate::engine::{compressed, is_compressed, shows_level, Encoder};
use crate::format::{CompressionFormat, CompressionLevel};
use crate::pieces::{all_full, lemma_blocks_and_rest, lemma_pieces_concat, pieces_of};

verus! {

/// The size of the blocks that go to the engine.
pub const BLOCK_SIZE: usize = 32768;

/// The compressed stream of `data` in `format` at `level`: what the engine for `format`,
/// opened at `level`, makes of `data` written block by block.
pub open spec fn stream_of(
    format: CompressionFormat,
    data: Seq<u8>,
    level: CompressionLevel,
) -> Seq<u8> {
    compressed(format, pieces_of(data, BLOCK_SIZE as nat), level.engine_level())
}

/// An encoder that is fed in any pieces and feeds the engine in blocks.
pub(crate) struct BlockEncoder {
    /// The engine, which has all full blocks so far.
    encoder: Encoder,
    /// The bytes that wait for their block to fill.
    pending: Vec<u8>,
}

impl BlockEncoder {
    /// The engine has full blocks only, and less than a block waits.
    pub(crate) closed spec fn wf(self) -> bool {
        &&& all_full(self.encoder.writes(), BLOCK_SIZE as nat)
        &&& self.pending@.len() < BLOCK_SIZE
    }

    /// All bytes taken in so far, in order.
    pub(crate) closed spec fn taken(self) -> Seq<u8> {
        self.encoder.writes().flatten() + self.pending@
    }

    /// The format of the engine.
    pub(crate) closed spec fn format(self) -> CompressionFormat {
        self.encoder.format()
    }

    /// The level the engine was opened at.
    pub(crate) closed spec fn level(self) -> u32 {
        self.encoder.level()
    }

    /// Opens the engine for `format` at the preset for `level`, with nothing taken in.
    pub(crate) fn new(format: CompressionFormat, level: CompressionLevel) -> (b: BlockEncoder)
        ensures
            b.wf(),
            b.taken() == Seq::<u8>::empty(),
            b.format() == format,
            b.level() == level.engine_level(),
    {
        let b = BlockEncoder { encoder: Encoder::new(format, level), pending: Vec::new() };
        assert(b.encoder.writes().flatten() =~= Seq::<u8>::empty());
        assert(b.taken() =~= Seq::<u8>::empty());
        b
    }

    /// Takes `chunk` in, which always succeeds. Every block that fills goes to the engine; what
    /// does not fill one waits.
    pub(crate) fn feed(&mut self, chunk: &[u8]) -> (r: Result<(), std::io::Error>)
        requires
            old(self).wf(),
        ensures
            r is Ok,
            final(self).wf(),
            final(self).taken() == old(self).taken() + chunk@,
            final(self).format() == old(self).format(),
            final(self).level() == old(self).level(),
    {
        let mut at: usize = 0;
        assert(chunk@.subrange(0, 0) =~= Seq::<u8>::empty());
        assert(self.taken() + Seq::<u8>::empty() =~= self.taken());
        while at < chunk.len()
            invariant
                at <= chunk@.len(),
                self.wf(),
                self.taken() == old(self).taken() + chunk@.subrange(0, at as int),
                self.format() == old(self).format(),
                self.level() == old(self).level(),
            decreases chunk@.len() - at,
        {
            let ghost before = self.taken();
            let ghost blocks = self.encoder.writes();
            let left = chunk.len() - at;
            if self.pending.len() == 0 && left >= BLOCK_SIZE {
                let block = slice_subrange(chunk, at, at + BLOCK_SIZE);
                match self.encoder.write_all(block) {
                    Ok(()) => {},
                    Err(e) => {
                        return Err(e);
                    },
                }
                proof {
                    blocks.lemma_flatten_push(block@);
                    assert(self.taken() =~= before + block@);
                    assert(chunk@.subrange(0, at + BLOCK_SIZE) =~= chunk@.subrange(0, at as int)
                        + block@);
                }
                at += BLOCK_SIZE;
            } else {
                let room = BLOCK_SIZE - self.pending.len();
                let count = if left < room {
                    left
                } else {
                    room
                };
                let part = slice_subrange(chunk, at, at + count);
                self.pending.extend_from_slice(part);
                proof {
                    assert(self.taken() =~= before + part@);
                    assert(chunk@.subrange(0, at + count) =~= chunk@.subrange(0, at as int)
                        + part@);
                }
                at += count;
                if self.pending.len() == BLOCK_SIZE {
                    let ghost full = self.pending@;
                    match self.encoder.write_all(self.pending.as_slice()) {
                        Ok(()) => {},
                        Err(e) => {
                            return Err(e);
                        },
                    }
                    self.pending.clear();
                    proof {
                        blocks.lemma_flatten_push(full);
                        assert(self.taken() =~= before + part@);
                    }
                }
            }
        }
        assert(chunk@.subrange(0, at as int) =~= chunk@);
        Ok(())
    }

    /// Hands the engine what still waits and closes the stream, which always succeeds. What
    /// comes out is the compressed stream of all that was taken in.
    pub(crate) fn finish(self) -> (r: Result<Vec<u8>, std::io::Error>)
        requires
            self.wf(),
        ensures
            r matches Ok(packed) && {
                &&& packed@ == compressed(
                    self.format(),
                    pieces_of(self.taken(), BLOCK_SIZE as nat),
                    self.level(),
                )
                &&& is_compressed(packed@, self.format(), self.taken())
                &&& shows_level(packed@, self.format(), self.level())
            },
    {
        let BlockEncoder { encoder, pending } = self;
        let mut encoder = encoder;
        proof {
            lemma_blocks_and_rest(encoder.writes(), pending@, BLOCK_SIZE as nat);
            lemma_pieces_concat(self.taken(), BLOCK_SIZE as nat);
        }
        match encoder.write_all(pending.as_slice()) {
            Ok(()) => {},
            Err(e) => {
                return Err(e);
            },
        }
        encoder.finish()
    }
}

} // verus!
