//! The stream bridge: what stands between the engine's "here is a chunk of
//! bytes" callback and a byte sink with an ordinary fallible write.
//!
//! The engine knows only a status code. A sink's own error is therefore kept
//! aside in the callback environment and handed out on request.

use vstd::prelude::*;
use crate::enums::Status;

verus! {

/// A byte sink: something that takes bytes in order and may refuse.
///
/// What a sink does with a write depends on the sink as it is at that moment,
/// and on nothing else: `accepts`, `takes` and `refusal` say what it will do.
pub trait ByteSink {
    /// What a refused write reports.
    type Error;

    /// Every byte that the sink has taken so far, in order.
    spec fn written(&self) -> Seq<u8>;

    /// Whether the sink, as it is, takes all of `data`.
    spec fn accepts(&self, data: Seq<u8>) -> bool;

    /// How many leading bytes of `data` the sink, as it is, takes.
    spec fn takes(&self, data: Seq<u8>) -> int;

    /// What the sink, as it is, reports if it does not take all of `data`.
    spec fn refusal(&self, data: Seq<u8>) -> Self::Error;

    /// Whether the sink is of a kind that takes whatever it is given.
    spec fn never_fails(&self) -> bool;

    /// Whether this sink is what `earlier` becomes by a write of `data`.
    spec fn follows(&self, earlier: &Self, data: Seq<u8>) -> bool;

    /// Writes all of `data`, or reports why it could not. After a failure the
    /// sink has taken some leading part of `data`, and nothing else.
    fn write_all(&mut self, data: &[u8]) -> (outcome: Result<(), Self::Error>)
        ensures
            final(self).follows(&*old(self), data@),
            outcome is Ok <==> old(self).accepts(data@),
            outcome is Err ==> outcome->Err_0 == old(self).refusal(data@),
            0 <= old(self).takes(data@) <= data@.len(),
            outcome is Ok ==> old(self).takes(data@) == data@.len(),
            final(self).written() == old(self).written() + data@.take(old(self).takes(data@)),
            old(self).never_fails() ==> outcome is Ok && final(self).never_fails(),
    ;
}

/// What the engine is told of one write: success, or a write error. The
/// sink's own error does not cross the boundary.
pub open spec fn status_of_write<E>(outcome: Result<(), E>) -> Status {
    if outcome is Ok {
        Status::Success
    } else {
        Status::WriteError
    }
}

/// Whether `end` is what `start` becomes by taking each of `chunks` whole, one
/// write after the other.
pub open spec fn takes_all<W: ByteSink>(start: W, chunks: Seq<Seq<u8>>, end: W) -> bool
    decreases chunks.len(),
{
    if chunks.len() == 0 {
        end == start
    } else {
        exists|mid: W|
            {
                &&& takes_all(start, chunks.drop_last(), mid)
                &&& #[trigger] mid.accepts(chunks.last())
                &&& end.follows(&mid, chunks.last())
            }
    }
}

/// The environment that the engine hands back on every callback: the sink,
/// and the slot for the error of a write that failed.
pub struct CallbackEnv<W, E> {
    pub writer: W,
    pub error: Option<E>,
}

impl<W, E> CallbackEnv<W, E> {
    /// A fresh environment around `writer`, at an address of its own, with no
    /// error held.
    pub fn new(writer: W) -> (env: Box<Self>)
        ensures
            env.writer == writer,
            env.error is None,
    {
        Box::new(CallbackEnv { writer, error: None })
    }

    /// Settles one write: a failure is kept in the error slot, replacing what
    /// was there, and the engine is told `WriteError`; a success leaves the
    /// slot alone and the engine is told `Success`.
    pub fn record(&mut self, outcome: Result<(), E>) -> (status: Status)
        ensures
            status == status_of_write(outcome),
            final(self).writer == old(self).writer,
            outcome is Ok ==> final(self).error == old(self).error,
            outcome is Err ==> final(self).error == Some(outcome->Err_0),
    {
        match outcome {
            Ok(_) => Status::Success,
            Err(e) => {
                self.error = Some(e);
                Status::WriteError
            },
        }
    }

    /// The error of the last write that failed, if one is held.
    pub fn io_error(&self) -> (held: Option<&E>)
        ensures
            held is Some <==> self.error is Some,
            held is Some ==> *held->Some_0 == self.error->Some_0,
    {
        self.error.as_ref()
    }

    /// Hands out the held error and empties the slot.
    pub fn take_io_error(&mut self) -> (held: Option<E>)
        ensures
            held == old(self).error,
            final(self).error is None,
            final(self).writer == old(self).writer,
    {
        self.error.take()
    }

    /// Gives the sink back.
    pub fn into_writer(self) -> (writer: W)
        ensures
            writer == self.writer,
    {
        self.writer
    }
}

impl<W: ByteSink> CallbackEnv<W, W::Error> {
    /// One callback of the engine: forwards the chunk to the sink and settles
    /// the outcome. The engine is told `Success` exactly when the sink took
    /// the whole chunk; otherwise it is told `WriteError`, and the sink's own
    /// error is held.
    pub fn write(&mut self, data: &[u8]) -> (status: Status)
        ensures
            status == if old(self).writer.accepts(data@) {
                Status::Success
            } else {
                Status::WriteError
            },
            final(self).writer.follows(&old(self).writer, data@),
            0 <= old(self).writer.takes(data@) <= data@.len(),
            final(self).writer.written() == old(self).writer.written() + data@.take(
                old(self).writer.takes(data@),
            ),
            old(self).writer.accepts(data@) ==> {
                &&& final(self).writer.written() == old(self).writer.written() + data@
                &&& final(self).error == old(self).error
            },
            !old(self).writer.accepts(data@) ==> final(self).error == Some(
                old(self).writer.refusal(data@),
            ),
            old(self).writer.never_fails() ==> status == Status::Success
                && final(self).writer.never_fails(),
    {
        proof {
            assert(data@.take(data@.len() as int) =~= data@);
        }
        let outcome = self.writer.write_all(data);
        self.record(outcome)
    }

    /// The chunks of a whole stream, as the engine delivers them: one callback
    /// each, in order, and none after the first that fails, since the engine
    /// gives up on a surface whose callback reported an error. After a
    /// failure the error held is that of the write that failed: the chunks
    /// before it reached the sink whole, and of the failing chunk the sink
    /// took what it took.
    pub fn write_chunks(&mut self, chunks: &Vec<Vec<u8>>) -> (status: Status)
        ensures
            status == Status::Success || status == Status::WriteError,
            status == Status::Success ==> {
                &&& takes_all(old(self).writer, chunk_bytes(chunks@), final(self).writer)
                &&& final(self).writer.written() == old(self).writer.written() + joined(
                    chunk_bytes(chunks@),
                )
                &&& final(self).error == old(self).error
            },
            status == Status::WriteError ==> exists|delivered: int, sink: W|
                {
                    &&& 0 <= delivered < chunks@.len()
                    &&& #[trigger] takes_all(
                        old(self).writer,
                        chunk_bytes(chunks@).take(delivered),
                        sink,
                    )
                    &&& sink.written() == old(self).writer.written() + joined(
                        chunk_bytes(chunks@).take(delivered),
                    )
                    &&& !sink.accepts(chunks@[delivered]@)
                    &&& final(self).error == Some(sink.refusal(chunks@[delivered]@))
                    &&& final(self).writer.follows(&sink, chunks@[delivered]@)
                    &&& final(self).writer.written() == sink.written()
                        + chunks@[delivered]@.take(sink.takes(chunks@[delivered]@))
                },
            old(self).writer.never_fails() ==> status == Status::Success
                && final(self).writer.never_fails(),
    {
        let ghost all = chunk_bytes(chunks@);
        let mut i: usize = 0;
        while i < chunks.len()
            invariant
                0 <= i <= chunks@.len(),
                all == chunk_bytes(chunks@),
                takes_all(old(self).writer, all.take(i as int), self.writer),
                self.writer.written() == old(self).writer.written() + joined(all.take(i as int)),
                self.error == old(self).error,
                old(self).writer.never_fails() ==> self.writer.never_fails(),
            decreases chunks@.len() - i,
        {
            let ghost before = self.writer.written();
            let ghost sink_before = self.writer;
            let status = self.write(chunks[i].as_slice());
            match status {
                Status::Success => {},
                _ => {
                    proof {
                        let delivered = i as int;
                        assert(takes_all(
                            old(self).writer,
                            chunk_bytes(chunks@).take(delivered),
                            sink_before,
                        ));
                        assert(!sink_before.accepts(chunks@[delivered]@));
                        assert(self.error == Some(sink_before.refusal(chunks@[delivered]@)));
                    }
                    return Status::WriteError;
                },
            }
            proof {
                assert(all.take(i + 1).drop_last() =~= all.take(i as int));
                assert(all.take(i + 1).last() == chunks@[i as int]@);
                let longer = all.take(i + 1);
                assert(takes_all(old(self).writer, longer.drop_last(), sink_before));
                assert(sink_before.accepts(longer.last()));
                assert(self.writer.follows(&sink_before, longer.last()));
                assert(longer.len() > 0);
                assert(takes_all(old(self).writer, longer, self.writer));
                assert(before + chunks@[i as int]@ =~= old(self).writer.written() + joined(
                    all.take(i + 1),
                ));
            }
            i = i + 1;
        }
        proof {
            assert(all.take(i as int) =~= all);
        }
        Status::Success
    }
}

/// The bytes of each chunk.
pub open spec fn chunk_bytes(chunks: Seq<Vec<u8>>) -> Seq<Seq<u8>> {
    Seq::new(chunks.len(), |i: int| chunks[i]@)
}

/// All chunks end to end.
pub open spec fn joined(chunks: Seq<Seq<u8>>) -> Seq<u8>
    decreases chunks.len(),
{
    if chunks.len() == 0 {
        Seq::empty()
    } else {
        joined(chunks.drop_last()) + chunks.last()
    }
}

/// Joining keeps every byte: the result is as long as the chunks together,
/// so a stream of N bytes arrives as N bytes however it was cut.
pub proof fn lemma_joined_keeps_every_byte(chunks: Seq<Seq<u8>>)
    ensures
        joined(chunks).len() == total_len(chunks),
    decreases chunks.len(),
{
    if chunks.len() > 0 {
        lemma_joined_keeps_every_byte(chunks.drop_last());
    }
}

/// How the bytes were cut into chunks does not matter: cutting one chunk in
/// two leaves the joined stream as it was.
pub proof fn lemma_joined_ignores_cuts(chunks: Seq<Seq<u8>>, at: int, cut: int)
    requires
        0 <= at < chunks.len(),
        0 <= cut <= chunks[at].len(),
    ensures
        joined(
            chunks.take(at).push(chunks[at].take(cut)).push(chunks[at].skip(cut)) + chunks.skip(
                at + 1,
            ),
        ) == joined(chunks),
    decreases chunks.len(),
{
    let split = chunks.take(at).push(chunks[at].take(cut)).push(chunks[at].skip(cut))
        + chunks.skip(at + 1);
    if at == chunks.len() - 1 {
        assert(chunks.skip(at + 1) =~= Seq::<Seq<u8>>::empty());
        assert(split =~= chunks.take(at).push(chunks[at].take(cut)).push(chunks[at].skip(cut)));
        assert(split.drop_last() =~= chunks.take(at).push(chunks[at].take(cut)));
        assert(split.drop_last().drop_last() =~= chunks.take(at));
        assert(chunks.drop_last() =~= chunks.take(at));
        assert(chunks[at].take(cut) + chunks[at].skip(cut) =~= chunks[at]);
        assert(split.last() == chunks[at].skip(cut));
        assert(split.drop_last().last() == chunks[at].take(cut));
        assert(joined(split) == joined(split.drop_last()) + split.last());
        assert(joined(split.drop_last()) == joined(split.drop_last().drop_last())
            + split.drop_last().last());
        assert(joined(split) =~= joined(chunks.take(at)) + chunks[at].take(cut) + chunks[at].skip(
            cut,
        ));
        assert(joined(split) =~= joined(chunks));
    } else {
        let shorter = chunks.drop_last();
        lemma_joined_ignores_cuts(shorter, at, cut);
        let shorter_split = shorter.take(at).push(shorter[at].take(cut)).push(
            shorter[at].skip(cut),
        ) + shorter.skip(at + 1);
        assert(split.drop_last() =~= shorter_split);
        assert(split.last() == chunks.last());
    }
}

/// The number of bytes in all chunks together.
pub open spec fn total_len(chunks: Seq<Seq<u8>>) -> nat
    decreases chunks.len(),
{
    if chunks.len() == 0 {
        0
    } else {
        total_len(chunks.drop_last()) + chunks.last().len()
    }
}

/// Why an in-memory sink refused a write: it was made with a limit, and
/// `refused` bytes did not fit.
#[derive(Clone, Copy, Debug, PartialEq, Eq, Structural)]
pub struct SinkFull {
    pub refused: usize,
}

/// An in-memory sink. Made without a limit it takes everything; made with one
/// it takes what fits and refuses the rest.
#[derive(Debug)]
pub struct MemorySink {
    bytes: Vec<u8>,
    limit: Option<usize>,
}

impl MemorySink {
    /// The bytes held.
    pub closed spec fn view(&self) -> Seq<u8> {
        self.bytes@
    }

    /// The most bytes that the sink will hold, if it has a limit.
    pub closed spec fn spec_limit(&self) -> Option<usize> {
        self.limit
    }

    /// How many more bytes fit.
    pub open spec fn room(&self) -> int {
        match self.spec_limit() {
            None => usize::MAX as int,
            Some(limit) => if limit >= self@.len() {
                limit - self@.len()
            } else {
                0
            },
        }
    }

    /// An empty sink without a limit.
    pub fn new() -> (sink: MemorySink)
        ensures
            sink@ == Seq::<u8>::empty(),
            sink.spec_limit() is None,
    {
        MemorySink { bytes: Vec::new(), limit: None }
    }

    /// An empty sink that holds at most `limit` bytes.
    pub fn with_limit(limit: usize) -> (sink: MemorySink)
        ensures
            sink@ == Seq::<u8>::empty(),
            sink.spec_limit() == Some(limit),
    {
        MemorySink { bytes: Vec::new(), limit: Some(limit) }
    }

    /// The bytes held.
    pub fn bytes(&self) -> (bytes: &Vec<u8>)
        ensures
            bytes@ == self@,
    {
        &self.bytes
    }

    /// Gives up the bytes held.
    pub fn into_bytes(self) -> (bytes: Vec<u8>)
        ensures
            bytes@ == self@,
    {
        self.bytes
    }
}

impl ByteSink for MemorySink {
    type Error = SinkFull;

    open spec fn written(&self) -> Seq<u8> {
        self@
    }

    open spec fn accepts(&self, data: Seq<u8>) -> bool {
        data.len() <= self.room()
    }

    open spec fn takes(&self, data: Seq<u8>) -> int {
        if data.len() <= self.room() {
            data.len() as int
        } else {
            self.room()
        }
    }

    open spec fn refusal(&self, data: Seq<u8>) -> SinkFull {
        SinkFull { refused: (data.len() - self.room()) as usize }
    }

    open spec fn never_fails(&self) -> bool {
        self.spec_limit() is None
    }

    open spec fn follows(&self, earlier: &MemorySink, data: Seq<u8>) -> bool {
        &&& self.spec_limit() == earlier.spec_limit()
        &&& self@ =~= earlier@ + data.take(earlier.takes(data))
    }

    /// Takes all of `data` where it fits. Where it does not, takes the
    /// leading bytes that do and reports how many were refused.
    fn write_all(&mut self, data: &[u8]) -> (outcome: Result<(), SinkFull>)
        ensures
            final(self).spec_limit() == old(self).spec_limit(),
    {
        let room: usize = match self.limit {
            None => usize::MAX,
            Some(limit) => if limit >= self.bytes.len() {
                limit - self.bytes.len()
            } else {
                0
            },
        };
        if data.len() <= room {
            self.bytes.extend_from_slice(data);
            proof {
                assert(data@.take(data@.len() as int) =~= data@);
            }
            Ok(())
        } else {
            let fitting = vstd::slice::slice_subrange(data, 0, room);
            self.bytes.extend_from_slice(fitting);
            proof {
                assert(data@.subrange(0, room as int) =~= data@.take(room as int));
            }
            Err(SinkFull { refused: data.len() - room })
        }
    }
}

/// An in-memory sink that took chunks whole holds them end to end behind
/// what it held before, has the limit that it had, and had room for them
/// all.
pub proof fn lemma_memory_sink_takes_all(start: MemorySink, chunks: Seq<Seq<u8>>, end: MemorySink)
    requires
        takes_all(start, chunks, end),
    ensures
        end.spec_limit() == start.spec_limit(),
        end@ == start@ + joined(chunks),
        start.spec_limit() is Some ==> joined(chunks).len() <= start.room(),
    decreases chunks.len(),
{
    if chunks.len() == 0 {
        assert(start@ + joined(chunks) =~= start@);
    } else {
        let mid = choose|mid: MemorySink|
            {
                &&& takes_all(start, chunks.drop_last(), mid)
                &&& #[trigger] mid.accepts(chunks.last())
                &&& end.follows(&mid, chunks.last())
            };
        lemma_memory_sink_takes_all(start, chunks.drop_last(), mid);
        assert(chunks.last().take(chunks.last().len() as int) =~= chunks.last());
        assert(end@ =~= start@ + joined(chunks));
    }
}

/// A bridged output surface: the surface, and the environment whose address
/// the engine was given when the surface was made. The environment stays
/// where it is for as long as the surface may call back.
pub struct Writer<S, W, E> {
    pub surface: S,
    pub callback_env: Box<CallbackEnv<W, E>>,
}

impl<S, W, E> Writer<S, W, E> {
    /// Joins a surface with the environment that it was made to call back.
    pub fn new(surface: S, callback_env: Box<CallbackEnv<W, E>>) -> (bridge: Writer<S, W, E>)
        ensures
            bridge.surface == surface,
            *bridge.callback_env == *callback_env,
    {
        Writer { surface, callback_env }
    }

    /// The sink.
    pub fn writer(&self) -> (sink: &W)
        ensures
            *sink == self.callback_env.writer,
    {
        &self.callback_env.writer
    }

    /// The sink, to write to it directly.
    pub fn writer_mut(&mut self) -> (sink: &mut W)
        ensures
            *sink == old(self).callback_env.writer,
            final(self).callback_env.writer == *final(sink),
            final(self).callback_env.error == old(self).callback_env.error,
            final(self).surface == old(self).surface,
    {
        &mut self.callback_env.writer
    }

    /// Settles one write that the caller made on the sink itself: a failure
    /// is held, and the engine is told `WriteError`; after a success it is
    /// told `Success`.
    pub fn record(&mut self, outcome: Result<(), E>) -> (status: Status)
        ensures
            status == status_of_write(outcome),
            final(self).surface == old(self).surface,
            final(self).callback_env.writer == old(self).callback_env.writer,
            outcome is Ok ==> final(self).callback_env.error == old(self).callback_env.error,
            outcome is Err ==> final(self).callback_env.error == Some(outcome->Err_0),
    {
        self.callback_env.record(outcome)
    }

    /// The error of the last write that failed, if one is held.
    pub fn io_error(&self) -> (held: Option<&E>)
        ensures
            held is Some <==> self.callback_env.error is Some,
            held is Some ==> *held->Some_0 == self.callback_env.error->Some_0,
    {
        self.callback_env.io_error()
    }

    /// Hands out the held error and empties the slot.
    pub fn take_io_error(&mut self) -> (held: Option<E>)
        ensures
            held == old(self).callback_env.error,
            final(self).callback_env.error is None,
            final(self).callback_env.writer == old(self).callback_env.writer,
            final(self).surface == old(self).surface,
    {
        self.callback_env.take_io_error()
    }

    /// Ends the bridge. Hands out the surface, which is to be finalized and
    /// then released, and the environment, which has to outlive both steps:
    /// finalizing pushes the output still pending through the callback. The
    /// sink and a held error are then taken from the environment.
    pub fn finish(self) -> (parts: (S, Box<CallbackEnv<W, E>>))
        ensures
            parts.0 == self.surface,
            *parts.1 == *self.callback_env,
    {
        (self.surface, self.callback_env)
    }
}

impl<S, W: ByteSink> Writer<S, W, W::Error> {
    /// One callback of the engine on this bridge.
    pub fn write_cb(&mut self, data: &[u8]) -> (status: Status)
        ensures
            final(self).surface == old(self).surface,
            status == if old(self).callback_env.writer.accepts(data@) {
                Status::Success
            } else {
                Status::WriteError
            },
            final(self).callback_env.writer.follows(&old(self).callback_env.writer, data@),
            0 <= old(self).callback_env.writer.takes(data@) <= data@.len(),
            final(self).callback_env.writer.written() == old(self).callback_env.writer.written() + data@.take(
                old(self).callback_env.writer.takes(data@),
            ),
            old(self).callback_env.writer.accepts(data@) ==> {
                &&& final(self).callback_env.writer.written() == old(self).callback_env.writer.written() + data@
                &&& final(self).callback_env.error == old(self).callback_env.error
            },
            !old(self).callback_env.writer.accepts(data@) ==> final(self).callback_env.error == Some(
                old(self).callback_env.writer.refusal(data@),
            ),
            old(self).callback_env.writer.never_fails() ==> status == Status::Success
                && final(self).callback_env.writer.never_fails(),
    {
        self.callback_env.write(data)
    }

    /// A whole stream through this bridge, as the engine delivers it: one
    /// callback per chunk, in order, and none after the first that fails.
    pub fn stream(&mut self, chunks: &Vec<Vec<u8>>) -> (status: Status)
        ensures
            final(self).surface == old(self).surface,
            status == Status::Success || status == Status::WriteError,
            status == Status::Success ==> {
                &&& takes_all(
                    old(self).callback_env.writer,
                    chunk_bytes(chunks@),
                    final(self).callback_env.writer,
                )
                &&& final(self).callback_env.writer.written() == old(
                    self,
                ).callback_env.writer.written() + joined(chunk_bytes(chunks@))
                &&& final(self).callback_env.error == old(self).callback_env.error
            },
            status == Status::WriteError ==> exists|delivered: int, sink: W|
                {
                    &&& 0 <= delivered < chunks@.len()
                    &&& #[trigger] takes_all(
                        old(self).callback_env.writer,
                        chunk_bytes(chunks@).take(delivered),
                        sink,
                    )
                    &&& sink.written() == old(self).callback_env.writer.written() + joined(
                        chunk_bytes(chunks@).take(delivered),
                    )
                    &&& !sink.accepts(chunks@[delivered]@)
                    &&& final(self).callback_env.error == Some(
                        sink.refusal(chunks@[delivered]@),
                    )
                    &&& final(self).callback_env.writer.follows(&sink, chunks@[delivered]@)
                    &&& final(self).callback_env.writer.written() == sink.written()
                        + chunks@[delivered]@.take(sink.takes(chunks@[delivered]@))
                },
            old(self).callback_env.writer.never_fails() ==> status == Status::Success
                && final(self).callback_env.writer.never_fails(),
    {
        self.callback_env.write_chunks(chunks)
    }
}

impl<'w, W: ByteSink> ByteSink for &'w mut W {
    type Error = W::Error;

    open spec fn written(&self) -> Seq<u8> {
        (**self).written()
    }

    open spec fn accepts(&self, data: Seq<u8>) -> bool {
        (**self).accepts(data)
    }

    open spec fn takes(&self, data: Seq<u8>) -> int {
        (**self).takes(data)
    }

    open spec fn refusal(&self, data: Seq<u8>) -> W::Error {
        (**self).refusal(data)
    }

    open spec fn never_fails(&self) -> bool {
        (**self).never_fails()
    }

    open spec fn follows(&self, earlier: &&'w mut W, data: Seq<u8>) -> bool {
        (**self).follows(&**earlier, data)
    }

    fn write_all(&mut self, data: &[u8]) -> (outcome: Result<(), W::Error>) {
        (**self).write_all(data)
    }
}

/// A bridged output surface over a borrowed sink: the bridge lasts no longer
/// than the borrow, and the caller has the sink back when the bridge is gone.
pub struct RefWriter<'w, S, W, E> {
    pub surface: S,
    pub callback_env: Box<CallbackEnv<&'w mut W, E>>,
}

impl<'w, S, W, E> RefWriter<'w, S, W, E> {
    /// Joins a surface with the environment that it was made to call back.
    pub fn new(surface: S, callback_env: Box<CallbackEnv<&'w mut W, E>>) -> (bridge: RefWriter<
        'w,
        S,
        W,
        E,
    >)
        ensures
            bridge.surface == surface,
            *bridge.callback_env == *callback_env,
    {
        RefWriter { surface, callback_env }
    }

    /// Settles one write that the caller made on the sink itself: a failure
    /// is held, and the engine is told `WriteError`; after a success it is
    /// told `Success`.
    pub fn record(&mut self, outcome: Result<(), E>) -> (status: Status)
        ensures
            status == status_of_write(outcome),
            final(self).surface == old(self).surface,
            final(self).callback_env.writer == old(self).callback_env.writer,
            outcome is Ok ==> final(self).callback_env.error == old(self).callback_env.error,
            outcome is Err ==> final(self).callback_env.error == Some(outcome->Err_0),
    {
        self.callback_env.record(outcome)
    }

    /// The error of the last write that failed, if one is held.
    pub fn io_error(&self) -> (held: Option<&E>)
        ensures
            held is Some <==> self.callback_env.error is Some,
            held is Some ==> *held->Some_0 == self.callback_env.error->Some_0,
    {
        self.callback_env.io_error()
    }

    /// Hands out the held error and empties the slot.
    pub fn take_io_error(&mut self) -> (held: Option<E>)
        ensures
            held == old(self).callback_env.error,
            final(self).callback_env.error is None,
            final(self).callback_env.writer == old(self).callback_env.writer,
            final(self).surface == old(self).surface,
    {
        self.callback_env.take_io_error()
    }
}

impl<'w, S, W: ByteSink> RefWriter<'w, S, W, W::Error> {
    /// One callback of the engine on this bridge.
    pub fn write_cb(&mut self, data: &[u8]) -> (status: Status)
        ensures
            final(self).surface == old(self).surface,
            status == if old(self).callback_env.writer.accepts(data@) {
                Status::Success
            } else {
                Status::WriteError
            },
            final(self).callback_env.writer.follows(&old(self).callback_env.writer, data@),
            0 <= old(self).callback_env.writer.takes(data@) <= data@.len(),
            final(self).callback_env.writer.written() == old(self).callback_env.writer.written() + data@.take(
                old(self).callback_env.writer.takes(data@),
            ),
            old(self).callback_env.writer.accepts(data@) ==> {
                &&& final(self).callback_env.writer.written() == old(self).callback_env.writer.written() + data@
                &&& final(self).callback_env.error == old(self).callback_env.error
            },
            !old(self).callback_env.writer.accepts(data@) ==> final(self).callback_env.error == Some(
                old(self).callback_env.writer.refusal(data@),
            ),
            old(self).callback_env.writer.never_fails() ==> status == Status::Success
                && final(self).callback_env.writer.never_fails(),
    {
        self.callback_env.write(data)
    }
}

/// What the engine is told of one write.
pub fn write_status<E>(outcome: &Result<(), E>) -> (status: Status)
    ensures
        status == status_of_write(*outcome),
{
    match outcome {
        Ok(_) => Status::Success,
        Err(_) => Status::WriteError,
    }
}

} // verus!
