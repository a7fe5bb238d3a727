//! The parallel streaming bridge: one worker decodes and forwards chunks,
//! one consumer drains them through a channel.
//!
//! The worker's protocol is a pure decision function, `worker_step`: each
//! fill result of the decoder maps to exactly one action — forward the
//! chunk, forward the one terminal error, or finish cleanly. The consumer
//! side, `ParDecompressor`, holds the receive handle and a re-assembly
//! buffer; a closed channel is the end-of-stream signal, never an error.
//! The spec-level model of the message stream, and the lemmas on it, pin
//! down what crosses the channel: chunk boundaries never change the bytes
//! delivered, and an error is forwarded exactly once, after every chunk
//! decoded before it.

use vstd::prelude::*;
use vstd::math::min;
use vstd::slice::{slice_subrange, slice_to_vec};

verus! {

#[verifier::external_type_specification]
#[verifier::external_body]
#[verifier::reject_recursive_types(T)]
pub struct ExReceiver<T>(std::sync::mpsc::Receiver<T>);

/// The worker's decision for one fill result of its decoder.
pub enum WorkerAction {
    /// The fill yielded no bytes and no error: clean end-of-stream.
    /// Send nothing more and exit; the consumer sees the channel close.
    Finish,
    /// The fill yielded bytes: forward them as one chunk and carry on.
    Forward(Vec<u8>),
    /// The fill failed: forward the error, exactly once, and exit.
    Fail(std::io::Error),
}

/// One worker decision. The worker owns the decoder; each time it asks
/// the decoder to fill and gets `fill` back, this says what to do next.
/// The caller performs the action: a `Forward` or `Fail` payload goes to
/// the channel as-is, and after `Finish` or `Fail` the worker exits. If
/// sending fails because the consumer disconnected, the worker also
/// exits, silently — that is the only cancellation mechanism.
pub fn worker_step(fill: Result<Vec<u8>, std::io::Error>) -> (a: WorkerAction)
    ensures
        (fill is Ok && fill->Ok_0@.len() == 0) <==> a is Finish,
        fill is Ok && fill->Ok_0@.len() > 0 ==> a is Forward && a->Forward_0@ == fill->Ok_0@,
        fill is Err ==> a is Fail && a->Fail_0 == fill->Err_0,
{
    match fill {
        Ok(bytes) => {
            if bytes.len() == 0 {
                WorkerAction::Finish
            } else {
                WorkerAction::Forward(bytes)
            }
        },
        Err(err) => WorkerAction::Fail(err),
    }
}

/// Relies on std::sync::mpsc::Receiver::recv: blocks until a message is
/// available, or fails once the channel is empty and every sender is
/// gone. Which message arrives depends on the producer, so nothing is
/// promised of the value; `None` stands for the closed channel.
#[verifier::external_body]
fn recv_chunk(rx: &std::sync::mpsc::Receiver<Result<Vec<u8>, std::io::Error>>) -> (msg: Option<
    Result<Vec<u8>, std::io::Error>,
>) {
    match rx.recv() {
        Ok(m) => Some(m),
        Err(_) => None,
    }
}

/// The consumer side of the bridge: the receive handle and a small
/// re-assembly buffer — the last received chunk and a read cursor.
pub struct ParDecompressor {
    pub r_decompressed: std::sync::mpsc::Receiver<Result<Vec<u8>, std::io::Error>>,
    pub buf: Vec<u8>,
    pub pos: usize,
    /// Every byte handed to the caller so far, in order. Reads only ever
    /// append to it: bytes delivered before a failure are never retracted.
    pub delivered: Ghost<Seq<u8>>,
}

impl ParDecompressor {
    /// The cursor never runs past the end of the held chunk.
    pub open spec fn wf(self) -> bool {
        self.pos <= self.buf@.len()
    }

    /// The bytes of the held chunk not yet handed out.
    pub open spec fn buffered(self) -> Seq<u8> {
        self.buf@.subrange(self.pos as int, self.buf@.len() as int)
    }

    /// Wrap a receive handle; the re-assembly buffer starts empty.
    pub fn new(r_decompressed: std::sync::mpsc::Receiver<Result<Vec<u8>, std::io::Error>>) -> (s:
        ParDecompressor)
        ensures
            s.wf(),
            s.buf@.len() == 0,
            s.pos == 0,
            s.delivered@ == Seq::<u8>::empty(),
    {
        ParDecompressor { r_decompressed, buf: Vec::new(), pos: 0, delivered: Ghost(Seq::empty()) }
    }

    /// Read up to `max` decompressed bytes.
    ///
    /// Bytes still buffered from the last chunk are served first, and a
    /// read never crosses a chunk boundary. With the buffer drained, the
    /// next channel message decides: a closed channel is a zero-length
    /// read — the ordinary end-of-stream signal; an error message is
    /// surfaced verbatim, once, leaving the buffer untouched; a chunk
    /// message refills the buffer and its first bytes are served.
    pub fn read(&mut self, max: usize) -> (r: Result<Vec<u8>, std::io::Error>)
        requires
            old(self).wf(),
        ensures
            final(self).wf(),
            r is Ok ==> final(self).delivered@ == old(self).delivered@ + r->Ok_0@,
            r is Err ==> final(self).delivered@ == old(self).delivered@,
            old(self).buffered().len() > 0 ==> {
                &&& r is Ok
                &&& r->Ok_0@ == old(self).buffered().take(
                    min(max as int, old(self).buffered().len() as int),
                )
                &&& final(self).buf@ == old(self).buf@
                &&& final(self).pos == old(self).pos + r->Ok_0@.len()
            },
            old(self).buffered().len() == 0 ==> {
                ||| (r is Ok && r->Ok_0@.len() == 0 && final(self).buffered().len() == 0)
                ||| (r is Err && final(self).buf@ == old(self).buf@ && final(self).pos == old(
                    self,
                ).pos)
                ||| (r is Ok && r->Ok_0@ == final(self).buf@.take(
                    min(max as int, final(self).buf@.len() as int),
                ) && final(self).pos == r->Ok_0@.len())
            },
    {
        if self.pos >= self.buf.len() {
            match recv_chunk(&self.r_decompressed) {
                None => {
                    proof {
                        assert(old(self).delivered@ + Seq::<u8>::empty() =~= old(self).delivered@);
                    }
                    return Ok(Vec::new());
                },
                Some(Ok(chunk)) => {
                    self.buf = chunk;
                    self.pos = 0;
                },
                Some(Err(err)) => {
                    return Err(err);
                },
            }
        }
        let avail: usize = self.buf.len() - self.pos;
        let n: usize = if max < avail {
            max
        } else {
            avail
        };
        let out = slice_to_vec(slice_subrange(self.buf.as_slice(), self.pos, self.pos + n));
        proof {
            assert(out@ =~= self.buf@.subrange(self.pos as int, self.buf@.len() as int).take(
                min(max as int, (self.buf@.len() - self.pos) as int),
            ));
        }
        self.pos = self.pos + n;
        self.delivered = Ghost(self.delivered@ + out@);
        Ok(out)
    }
}

/// The messages the worker puts on the channel, given the successive
/// fill results of its decoder: each non-empty chunk is forwarded as it
/// came; an empty fill closes the channel with nothing further; a failed
/// fill forwards the error and closes the channel.
pub open spec fn worker_messages(fills: Seq<Result<Seq<u8>, ()>>) -> Seq<Result<Seq<u8>, ()>>
    decreases fills.len(),
{
    if fills.len() == 0 {
        seq![]
    } else {
        match fills[0] {
            Ok(c) => if c.len() == 0 {
                seq![]
            } else {
                seq![Result::<Seq<u8>, ()>::Ok(c)] + worker_messages(fills.skip(1))
            },
            Err(_) => seq![Result::<Seq<u8>, ()>::Err(())],
        }
    }
}

/// The bytes the consumer hands its caller, draining the messages in
/// order: each chunk whole, stopping at a closed channel, an empty chunk,
/// or the one error message.
pub open spec fn delivered_bytes(msgs: Seq<Result<Seq<u8>, ()>>) -> Seq<u8>
    decreases msgs.len(),
{
    if msgs.len() == 0 {
        seq![]
    } else {
        match msgs[0] {
            Ok(c) => if c.len() == 0 {
                seq![]
            } else {
                c + delivered_bytes(msgs.skip(1))
            },
            Err(_) => seq![],
        }
    }
}

/// Lift a sequence of decoded chunks to the fill results of a decoder
/// that never fails.
pub open spec fn as_fills(chunks: Seq<Seq<u8>>) -> Seq<Result<Seq<u8>, ()>> {
    chunks.map_values(|c: Seq<u8>| Result::<Seq<u8>, ()>::Ok(c))
}

/// The chunk payloads of a run of fill results that are all good.
pub open spec fn payloads(fills: Seq<Result<Seq<u8>, ()>>) -> Seq<Seq<u8>> {
    fills.map_values(|m: Result<Seq<u8>, ()>| m->Ok_0)
}

/// Every chunk of a decoder that fills without error or empty chunk
/// crosses the bridge whole and in order: the consumer's bytes are
/// exactly the decoded stream, whatever the chunk boundaries were.
pub proof fn lemma_bridge_delivers_stream(chunks: Seq<Seq<u8>>)
    requires
        forall|i: int| 0 <= i < chunks.len() ==> chunks[i].len() > 0,
    ensures
        delivered_bytes(worker_messages(as_fills(chunks))) == chunks.flatten(),
    decreases chunks.len(),
{
    if chunks.len() == 0 {
        assert(as_fills(chunks).len() == 0);
    } else {
        assert(as_fills(chunks)[0] == Result::<Seq<u8>, ()>::Ok(chunks[0]));
        assert(as_fills(chunks).skip(1) =~= as_fills(chunks.skip(1)));
        lemma_bridge_delivers_stream(chunks.skip(1));
        let msgs = worker_messages(as_fills(chunks));
        assert(msgs == seq![Result::<Seq<u8>, ()>::Ok(chunks[0])] + worker_messages(
            as_fills(chunks.skip(1)),
        ));
        assert(msgs[0] == Result::<Seq<u8>, ()>::Ok(chunks[0]));
        assert(msgs.skip(1) =~= worker_messages(as_fills(chunks.skip(1))));
        assert(chunks.flatten() == chunks[0] + chunks.skip(1).flatten());
    }
}

/// How the decoded stream is cut into chunks is immaterial: two runs of
/// the bridge whose decoders yield the same bytes under different chunk
/// boundaries deliver byte-identical output — in particular, the bridge
/// delivers exactly what a direct synchronous read of the decoder would.
pub proof fn lemma_chunking_immaterial(a: Seq<Seq<u8>>, b: Seq<Seq<u8>>)
    requires
        forall|i: int| 0 <= i < a.len() ==> a[i].len() > 0,
        forall|i: int| 0 <= i < b.len() ==> b[i].len() > 0,
        a.flatten() == b.flatten(),
    ensures
        delivered_bytes(worker_messages(as_fills(a))) == delivered_bytes(
            worker_messages(as_fills(b)),
        ),
{
    lemma_bridge_delivers_stream(a);
    lemma_bridge_delivers_stream(b);
}

/// A decode error reached after `i` good fills is forwarded exactly
/// once, as the last message; every chunk decoded before the failure is
/// forwarded first, unchanged and in order, so the bytes delivered up to
/// the error are exactly the bytes decoded before it.
pub proof fn lemma_error_surfaced_once(fills: Seq<Result<Seq<u8>, ()>>, i: int)
    requires
        0 <= i < fills.len(),
        fills[i] is Err,
        forall|j: int| 0 <= j < i ==> fills[j] is Ok && fills[j]->Ok_0.len() > 0,
    ensures
        worker_messages(fills) == fills.take(i) + seq![Result::<Seq<u8>, ()>::Err(())],
        forall|j: int| 0 <= j < i ==> worker_messages(fills)[j] == fills[j],
        delivered_bytes(worker_messages(fills)) == payloads(fills.take(i)).flatten(),
    decreases i,
{
    let chunks = payloads(fills.take(i));
    assert(as_fills(chunks) =~= fills.take(i));
    lemma_bridge_delivers_stream(chunks);
    let msgs = worker_messages(fills);
    if i == 0 {
        assert(msgs =~= fills.take(0) + seq![Result::<Seq<u8>, ()>::Err(())]);
        assert(worker_messages(fills.take(0)) == Seq::<Result<Seq<u8>, ()>>::empty());
        assert(chunks.len() == 0);
        assert(delivered_bytes(msgs) =~= Seq::<u8>::empty());
    } else {
        let c = fills[0]->Ok_0;
        lemma_error_surfaced_once(fills.skip(1), i - 1);
        assert(fills.skip(1).take(i - 1) =~= fills.take(i).skip(1));
        assert(msgs =~= fills.take(i) + seq![Result::<Seq<u8>, ()>::Err(())]);
        assert(worker_messages(fills.take(i)) == seq![Result::<Seq<u8>, ()>::Ok(c)]
            + worker_messages(fills.take(i).skip(1)));
        assert(delivered_bytes(msgs) == c + delivered_bytes(msgs.skip(1)));
        assert(msgs.skip(1) =~= worker_messages(fills.skip(1)));
        assert(chunks[0] == c);
        assert(chunks.skip(1) =~= payloads(fills.take(i).skip(1)));
        assert(payloads(fills.skip(1).take(i - 1)) =~= payloads(fills.take(i).skip(1)));
        assert(chunks.flatten() == chunks[0] + chunks.skip(1).flatten());
        assert(delivered_bytes(msgs) == c + delivered_bytes(worker_messages(fills.skip(1))));
    }
}

} // verus!
