//! Transfer engine: one logical read or write exchange, split into the
//! decisions the protocol makes between bulk transfers.
//!
//! The embedding program performs the raw bulk transfers; it feeds each
//! received chunk into a [`ChunkedRead`] and sends the chunks produced by
//! [`split_chunks`] for a write exchange. All decisions — trailer detection,
//! oversize guarding, chunk accounting — are made here.

use vstd::prelude::*;

use crate::codec::{build_header, header_bytes, is_status_trailer, is_trailer};
use crate::CamError;

verus! {

/// Maximum number of response bytes accumulated by a chunked read, and the
/// maximum response size announced in read command headers.
pub const DEFAULT_MAX_RECV_SIZE: usize = 65536;

/// Size of one bulk-transfer chunk.
pub const DEFAULT_CHUNK_SIZE: usize = 16384;

/// Relies on rand::random: a fresh pseudo-random correlation value for one
/// exchange. Nothing is promised of the result; every contract downstream
/// holds whatever value comes back.
#[verifier::external_body]
pub(crate) fn fresh_check_value() -> u32 {
    rand::random()
}

/// What a chunked read does with one received chunk.
#[derive(Debug, Clone, Copy, PartialEq, Eq, Structural)]
pub enum ChunkStep {
    /// The chunk was appended whole; the read continues.
    Continue,
    /// The chunk was the status trailer; the read is complete.
    Finished,
    /// Appending the chunk would exceed the configured maximum; the read
    /// stops with an oversized-response error.
    Oversized,
}

/// The accumulator state transition for one received chunk: a trailer chunk
/// contributes its bytes before the trailing 13; a fitting ordinary chunk is
/// appended whole; an oversized chunk leaves the accumulator unchanged.
pub open spec fn read_step(acc: Seq<u8>, chunk: Seq<u8>, check_value: u32, max_size: int) -> Seq<
    u8,
> {
    if is_trailer(chunk, check_value) {
        acc + chunk.take(chunk.len() - 13)
    } else if acc.len() + chunk.len() <= max_size {
        acc + chunk
    } else {
        acc
    }
}

/// The accumulator after feeding `chunks` in order, starting from `acc`.
pub open spec fn assemble_from(
    acc: Seq<u8>,
    chunks: Seq<Seq<u8>>,
    check_value: u32,
    max_size: int,
) -> Seq<u8>
    decreases chunks.len(),
{
    if chunks.len() == 0 {
        acc
    } else {
        assemble_from(
            read_step(acc, chunks[0], check_value, max_size),
            chunks.drop_first(),
            check_value,
            max_size,
        )
    }
}

/// Concatenation of a sequence of byte chunks.
pub open spec fn concat_bytes(chunks: Seq<Seq<u8>>) -> Seq<u8>
    decreases chunks.len(),
{
    if chunks.len() == 0 {
        Seq::empty()
    } else {
        chunks[0] + concat_bytes(chunks.drop_first())
    }
}

pub proof fn lemma_concat_bytes_push(chunks: Seq<Seq<u8>>, chunk: Seq<u8>)
    ensures
        concat_bytes(chunks.push(chunk)) == concat_bytes(chunks) + chunk,
    decreases chunks.len(),
{
    if chunks.len() == 0 {
        let p = chunks.push(chunk);
        assert(p[0] == chunk);
        assert(p.drop_first() =~= Seq::<Seq<u8>>::empty());
        assert(concat_bytes(p.drop_first()) =~= Seq::<u8>::empty());
        assert(concat_bytes(p) == p[0] + concat_bytes(p.drop_first()));
        assert(concat_bytes(chunks) =~= Seq::<u8>::empty());
        assert(concat_bytes(p) =~= concat_bytes(chunks) + chunk);
    } else {
        assert(chunks.push(chunk)[0] == chunks[0]);
        assert(chunks.push(chunk).drop_first() =~= chunks.drop_first().push(chunk));
        lemma_concat_bytes_push(chunks.drop_first(), chunk);
        assert(chunks[0] + (concat_bytes(chunks.drop_first()) + chunk) =~= (chunks[0]
            + concat_bytes(chunks.drop_first())) + chunk);
    }
}

/// One in-progress chunked read exchange: the accumulated payload, the
/// correlation value the trailer must echo, and the accumulation bound.
pub struct ChunkedRead {
    pub data: Vec<u8>,
    pub check_value: u32,
    pub max_size: usize,
}

impl ChunkedRead {
    /// While a read is still accepting chunks, the accumulator stays within
    /// the configured bound.
    pub open spec fn wf(&self) -> bool {
        self.data@.len() <= self.max_size
    }

    /// Starts a chunked read with an explicit correlation value and bound.
    pub fn new(check_value: u32, max_size: usize) -> (r: ChunkedRead)
        ensures
            r.wf(),
            r.data@.len() == 0,
            r.check_value == check_value,
            r.max_size == max_size,
    {
        ChunkedRead { data: Vec::new(), check_value, max_size }
    }

    /// Starts a chunked read exchange for `opcode`: picks a fresh
    /// correlation value and builds the command header announcing the
    /// default maximum response size.
    pub fn start(opcode: &[u8]) -> (r: (ChunkedRead, Vec<u8>))
        requires
            opcode@.len() <= 16,
        ensures
            r.0.wf(),
            r.0.data@.len() == 0,
            r.0.max_size == DEFAULT_MAX_RECV_SIZE,
            r.1@ == header_bytes(opcode@, DEFAULT_MAX_RECV_SIZE as u32, true, r.0.check_value),
    {
        let check_value = fresh_check_value();
        let header = build_header(opcode, DEFAULT_MAX_RECV_SIZE as u32, true, check_value);
        (ChunkedRead::new(check_value, DEFAULT_MAX_RECV_SIZE), header)
    }

    /// Feeds one received chunk into the read.
    ///
    /// A chunk that carries the status trailer finishes the read and
    /// contributes only its bytes before the trailing 13. Any other chunk is
    /// appended whole, unless that would push the accumulator past the
    /// configured maximum, in which case nothing is appended and the read
    /// stops oversized.
    pub fn push_chunk(&mut self, chunk: &[u8]) -> (step: ChunkStep)
        requires
            old(self).wf(),
        ensures
            final(self).check_value == old(self).check_value,
            final(self).max_size == old(self).max_size,
            final(self).data@ == read_step(
                old(self).data@,
                chunk@,
                old(self).check_value,
                old(self).max_size as int,
            ),
            step == ChunkStep::Finished <==> is_trailer(chunk@, old(self).check_value),
            !is_trailer(chunk@, old(self).check_value) ==> {
                &&& final(self).wf()
                &&& (step == ChunkStep::Continue <==> old(self).data@.len() + chunk@.len() <= old(
                    self,
                ).max_size)
            },
    {
        if is_status_trailer(chunk, self.check_value) {
            if chunk.len() > 13 {
                let body = &chunk[0..chunk.len() - 13];
                self.data.extend_from_slice(body);
            }
            proof {
                if chunk@.len() == 13 {
                    assert(self.data@ =~= old(self).data@ + chunk@.take(chunk@.len() - 13));
                }
            }
            ChunkStep::Finished
        } else if chunk.len() > self.max_size - self.data.len() {
            ChunkStep::Oversized
        } else {
            self.data.extend_from_slice(chunk);
            ChunkStep::Continue
        }
    }

    /// The oversized-response error for this read: the configured limit and
    /// what had been accumulated when the read stopped.
    pub fn oversized_error(&self) -> (e: CamError)
        ensures
            e == (CamError::OversizedResponse {
                limit: self.max_size as u64,
                received: self.data@.len() as u64,
            }),
    {
        CamError::OversizedResponse { limit: self.max_size as u64, received: self.data.len() as u64 }
    }

    /// Surrenders the accumulated payload.
    pub fn into_data(self) -> (data: Vec<u8>)
        ensures
            data@ == self.data@,
    {
        self.data
    }
}

/// Chunked-read reassembly law: when only the last chunk of a sequence
/// carries the status trailer and the ordinary chunks fit within the bound,
/// the assembled buffer is exactly the concatenation of all non-final chunks
/// followed by the final chunk's bytes before its trailing 13 — no trailer
/// bytes leak into the result.
pub proof fn lemma_chunked_reassembly(
    acc: Seq<u8>,
    chunks: Seq<Seq<u8>>,
    check_value: u32,
    max_size: int,
)
    requires
        chunks.len() >= 1,
        forall|i: int| 0 <= i < chunks.len() - 1 ==> !is_trailer(#[trigger] chunks[i], check_value),
        is_trailer(chunks.last(), check_value),
        acc.len() + concat_bytes(chunks.drop_last()).len() <= max_size,
    ensures
        assemble_from(acc, chunks, check_value, max_size) == acc + concat_bytes(chunks.drop_last())
            + chunks.last().take(chunks.last().len() - 13),
    decreases chunks.len(),
{
    if chunks.len() == 1 {
        assert(chunks[0] == chunks.last());
        assert(chunks.drop_first() =~= Seq::<Seq<u8>>::empty());
        assert(chunks.drop_last() =~= Seq::<Seq<u8>>::empty());
        let mid = read_step(acc, chunks[0], check_value, max_size);
        assert(assemble_from(acc, chunks, check_value, max_size) == assemble_from(
            mid,
            chunks.drop_first(),
            check_value,
            max_size,
        ));
        assert(assemble_from(mid, chunks.drop_first(), check_value, max_size) == mid);
        assert(concat_bytes(chunks.drop_last()) =~= Seq::<u8>::empty());
        assert(acc + concat_bytes(chunks.drop_last()) + chunks.last().take(
            chunks.last().len() - 13,
        ) =~= acc + chunks.last().take(chunks.last().len() - 13));
    } else {
        let c0 = chunks[0];
        let rest = chunks.drop_first();
        assert(!is_trailer(c0, check_value));
        assert(rest.last() == chunks.last());
        assert(rest.drop_last() =~= chunks.drop_last().drop_first());
        assert(chunks.drop_last().len() > 0);
        assert(chunks.drop_last()[0] == c0);
        assert(concat_bytes(chunks.drop_last()) == c0 + concat_bytes(rest.drop_last()));
        assert(forall|i: int|
            0 <= i < rest.len() - 1 ==> !is_trailer(#[trigger] rest[i], check_value)) by {
            assert(forall|i: int|
                0 <= i < rest.len() - 1 ==> #[trigger] rest[i] == chunks[i + 1]);
        }
        assert(read_step(acc, c0, check_value, max_size) == acc + c0);
        assert(assemble_from(acc, chunks, check_value, max_size) == assemble_from(
            acc + c0,
            rest,
            check_value,
            max_size,
        ));
        lemma_chunked_reassembly(acc + c0, rest, check_value, max_size);
        assert((acc + c0) + concat_bytes(rest.drop_last()) + rest.last().take(
            rest.last().len() - 13,
        ) =~= acc + (c0 + concat_bytes(rest.drop_last())) + chunks.last().take(
            chunks.last().len() - 13,
        ));
    }
}

/// One in-progress write exchange: the correlation value that the device's
/// acknowledging status trailer must echo.
pub struct WriteExchange {
    pub check_value: u32,
}

impl WriteExchange {
    /// Starts a write exchange for `opcode`: picks a fresh correlation value
    /// and builds the command header, whose maximum-response-size field
    /// carries the payload length and whose direction flag marks a write.
    pub fn begin(opcode: &[u8], payload_len: usize) -> (r: (WriteExchange, Vec<u8>))
        requires
            opcode@.len() <= 16,
            payload_len <= u32::MAX,
        ensures
            r.1@ == header_bytes(opcode@, payload_len as u32, false, r.0.check_value),
    {
        let check_value = fresh_check_value();
        let header = build_header(opcode, payload_len as u32, false, check_value);
        (WriteExchange { check_value }, header)
    }

    /// Judges the single bulk read that ends a write exchange: success
    /// exactly when it carries the status trailer echoing this exchange's
    /// correlation value; anything else is a write failure.
    pub fn finish(&self, response: &[u8]) -> (r: Result<(), CamError>)
        ensures
            r is Ok <==> is_trailer(response@, self.check_value),
            !is_trailer(response@, self.check_value) ==> r == Err::<(), CamError>(CamError::Write),
    {
        if is_status_trailer(response, self.check_value) {
            Ok(())
        } else {
            Err(CamError::Write)
        }
    }
}

/// Splits a write payload into bulk-transfer chunks: every chunk is full
/// size except possibly the last, their concatenation is the payload, and an
/// empty payload yields no chunks.
pub fn split_chunks(payload: &[u8]) -> (chunks: Vec<Vec<u8>>)
    ensures
        concat_bytes(chunks@.map_values(|c: Vec<u8>| c@)) == payload@,
        forall|i: int| 0 <= i < chunks@.len() ==> 0 < #[trigger] chunks@[i]@.len()
            <= DEFAULT_CHUNK_SIZE,
        forall|i: int| 0 <= i < chunks@.len() - 1 ==> #[trigger] chunks@[i]@.len()
            == DEFAULT_CHUNK_SIZE,
{
    let mut chunks: Vec<Vec<u8>> = Vec::new();
    let mut at: usize = 0;
    proof {
        assert(payload@.take(0) =~= Seq::<u8>::empty());
    }
    while at < payload.len()
        invariant
            at <= payload@.len(),
            concat_bytes(chunks@.map_values(|c: Vec<u8>| c@)) == payload@.take(at as int),
            forall|i: int| 0 <= i < chunks@.len() ==> 0 < #[trigger] chunks@[i]@.len()
                <= DEFAULT_CHUNK_SIZE,
            at < payload@.len() ==> forall|i: int| 0 <= i < chunks@.len()
                ==> #[trigger] chunks@[i]@.len() == DEFAULT_CHUNK_SIZE,
            forall|i: int| 0 <= i < chunks@.len() - 1 ==> #[trigger] chunks@[i]@.len()
                == DEFAULT_CHUNK_SIZE,
        decreases payload@.len() - at,
    {
        let remaining = payload.len() - at;
        let step = if remaining < DEFAULT_CHUNK_SIZE {
            remaining
        } else {
            DEFAULT_CHUNK_SIZE
        };
        let piece = vstd::slice::slice_to_vec(vstd::slice::slice_subrange(payload, at, at + step));
        let ghost prev = chunks@.map_values(|c: Vec<u8>| c@);
        chunks.push(piece);
        proof {
            assert(chunks@.map_values(|c: Vec<u8>| c@) =~= prev.push(
                payload@.subrange(at as int, at + step),
            ));
            lemma_concat_bytes_push(prev, payload@.subrange(at as int, at + step));
            assert(payload@.take(at as int) + payload@.subrange(at as int, at + step)
                =~= payload@.take(at + step));
        }
        at = at + step;
    }
    proof {
        assert(payload@.take(payload@.len() as int) =~= payload@);
    }
    chunks
}

} // verus!
