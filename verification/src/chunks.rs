//! The streaming core of an upload and a download, kept apart from the
//! channel that carries the chunks. The assembler re-cuts network-sized
//! chunks into blocks of exactly the tier's block size, so pacing applies
//! to a known amount of data; the step function decides what a received
//! chunk means to the download side. The bytes handed out, followed by
//! whatever still waits in the buffer, are always exactly the bytes fed in,
//! in order.

use vstd::prelude::*;

verus! {

/// Re-cuts incoming chunks into blocks of exactly `block_size` bytes,
/// buffering the remainder, and keeps ghost accounts of everything fed in
/// and everything handed out.
pub struct ChunkAssembler {
    /// Bytes received but not yet handed out.
    pub buf: Vec<u8>,
    /// The block size every popped block has exactly.
    pub block_size: usize,
    /// Every byte ever fed in, in order.
    pub fed: Ghost<Seq<u8>>,
    /// Every block ever handed out, in order.
    pub emitted: Ghost<Seq<Seq<u8>>>,
}

impl ChunkAssembler {
    /// Blocks are cut to a positive size, and no byte is lost or invented:
    /// the concatenation of the blocks handed out, followed by the buffered
    /// remainder, is the byte sequence fed in.
    pub open spec fn wf(&self) -> bool {
        &&& self.block_size >= 1
        &&& self.emitted@.flatten() + self.buf@ == self.fed@
    }

    pub fn new(block_size: usize) -> (r: ChunkAssembler)
        requires
            block_size >= 1,
        ensures
            r.wf(),
            r.block_size == block_size,
            r.buf@ == Seq::<u8>::empty(),
            r.fed@ == Seq::<u8>::empty(),
            r.emitted@ == Seq::<Seq<u8>>::empty(),
    {
        let r = ChunkAssembler {
            buf: Vec::new(),
            block_size,
            fed: Ghost(Seq::empty()),
            emitted: Ghost(Seq::empty()),
        };
        proof {
            assert(r.emitted@.flatten() + r.buf@ =~= r.fed@);
        }
        r
    }

    /// Feeds one network chunk into the buffer.
    pub fn push(&mut self, chunk: Vec<u8>)
        requires
            old(self).wf(),
        ensures
            final(self).wf(),
            final(self).block_size == old(self).block_size,
            final(self).buf@ == old(self).buf@ + chunk@,
            final(self).fed@ == old(self).fed@ + chunk@,
            final(self).emitted@ == old(self).emitted@,
    {
        let mut incoming = chunk;
        self.buf.append(&mut incoming);
        proof {
            self.fed@ = old(self).fed@ + chunk@;
            assert(self.emitted@.flatten() + self.buf@ =~= self.fed@);
        }
    }

    /// Whether a full block is buffered and can be popped.
    pub fn has_full_block(&self) -> (r: bool)
        ensures
            r == (self.buf@.len() >= self.block_size),
    {
        self.buf.len() >= self.block_size
    }

    /// Hands out the oldest `block_size` buffered bytes as one block.
    pub fn pop_block(&mut self) -> (r: Vec<u8>)
        requires
            old(self).wf(),
            old(self).buf@.len() >= old(self).block_size,
        ensures
            final(self).wf(),
            final(self).block_size == old(self).block_size,
            r@.len() == old(self).block_size,
            r@ == old(self).buf@.take(old(self).block_size as int),
            final(self).buf@ == old(self).buf@.skip(old(self).block_size as int),
            final(self).fed@ == old(self).fed@,
            final(self).emitted@ == old(self).emitted@.push(r@),
    {
        let mut rest = self.buf.split_off(self.block_size);
        core::mem::swap(&mut self.buf, &mut rest);
        let block = rest;
        proof {
            self.emitted@ = old(self).emitted@.push(block@);
            old(self).emitted@.lemma_flatten_push(block@);
            assert(old(self).buf@.take(old(self).block_size as int) + old(self).buf@.skip(
                old(self).block_size as int,
            ) =~= old(self).buf@);
            assert(self.emitted@.flatten() + self.buf@ =~= self.fed@);
        }
        block
    }

    /// Hands out whatever remains in the buffer as the final block; it may
    /// be empty, and the buffer is empty afterwards.
    pub fn flush(&mut self) -> (r: Vec<u8>)
        requires
            old(self).wf(),
        ensures
            final(self).wf(),
            final(self).block_size == old(self).block_size,
            r@ == old(self).buf@,
            final(self).buf@ == Seq::<u8>::empty(),
            final(self).fed@ == old(self).fed@,
            final(self).emitted@ == old(self).emitted@.push(r@),
            final(self).emitted@.flatten() == final(self).fed@,
    {
        let mut remainder: Vec<u8> = Vec::new();
        core::mem::swap(&mut self.buf, &mut remainder);
        proof {
            self.emitted@ = old(self).emitted@.push(remainder@);
            old(self).emitted@.lemma_flatten_push(remainder@);
            assert(self.emitted@.flatten() + self.buf@ =~= self.fed@);
            assert(self.emitted@.flatten() =~= self.fed@);
        }
        remainder
    }
}

/// What one received chunk means to the download side.
#[derive(Debug)]
pub enum DownloadStep {
    /// Payload bytes to stream to the receiver.
    Deliver(Vec<u8>),
    /// The empty sentinel chunk: the upload finished; end the ticket.
    Finished,
    /// The channel closed without a sentinel: the sender went away.
    ChannelLost,
}

/// Decides what a chunk received from the consumer end means: a missing
/// chunk is a lost channel, the empty sentinel finishes the download, and
/// anything else is payload, handed back unchanged.
pub fn download_step(msg: Option<Vec<u8>>) -> (r: DownloadStep)
    ensures
        msg is None <==> r is ChannelLost,
        (msg matches Some(v) && v@.len() == 0) <==> r is Finished,
        (msg matches Some(v) && v@.len() > 0) <==> r is Deliver,
        r matches DownloadStep::Deliver(v) ==> msg == Some(v),
{
    match msg {
        None => DownloadStep::ChannelLost,
        Some(v) => {
            if v.len() == 0 {
                DownloadStep::Finished
            } else {
                DownloadStep::Deliver(v)
            }
        },
    }
}

} // verus!
