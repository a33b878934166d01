//! Byte streams and host output sinks, and the relay between them.
//!
//! The relay copies a child stream to a host sink until the source
//! closes: every byte, in order, nothing added, nothing lost.  The
//! host sink records what it receives as a sequence of events — runs
//! of relayed bytes and status lines of the supervisor itself — so the
//! order of child output against status lines is part of the model.

use vstd::prelude::*;
use crate::error::{Error, ErrorKind};

verus! {

/// One thing a host output sink has received.
pub enum SinkEvent {
    /// A run of bytes relayed verbatim from a child stream.
    Chunk(Seq<u8>),
    /// A status line of the supervisor itself.
    Line(Seq<char>),
}

/// The bytes carried by the chunk events among `events`, in order.
pub open spec fn chunk_bytes(events: Seq<SinkEvent>) -> Seq<u8>
    decreases events.len(),
{
    if events.len() == 0 {
        Seq::empty()
    } else {
        chunk_bytes(events.drop_last()) + (match events.last() {
            SinkEvent::Chunk(b) => b,
            SinkEvent::Line(_) => Seq::empty(),
        })
    }
}

/// Appending a chunk event appends exactly its bytes.
pub proof fn lemma_chunk_bytes_push_chunk(events: Seq<SinkEvent>, bytes: Seq<u8>)
    ensures
        chunk_bytes(events.push(SinkEvent::Chunk(bytes))) == chunk_bytes(events) + bytes,
{
    assert(events.push(SinkEvent::Chunk(bytes)).drop_last() =~= events);
}

/// Appending a status line leaves the relayed bytes as they are.
pub proof fn lemma_chunk_bytes_push_line(events: Seq<SinkEvent>, line: Seq<char>)
    ensures
        chunk_bytes(events.push(SinkEvent::Line(line))) == chunk_bytes(events),
{
    assert(events.push(SinkEvent::Line(line)).drop_last() =~= events);
    assert(chunk_bytes(events) + Seq::<u8>::empty() =~= chunk_bytes(events));
}

/// The relayed bytes of a concatenation are the concatenated relayed
/// bytes.
pub proof fn lemma_chunk_bytes_concat(a: Seq<SinkEvent>, b: Seq<SinkEvent>)
    ensures
        chunk_bytes(a + b) == chunk_bytes(a) + chunk_bytes(b),
    decreases b.len(),
{
    if b.len() == 0 {
        assert(a + b =~= a);
        assert(chunk_bytes(a) + Seq::<u8>::empty() =~= chunk_bytes(a));
    } else {
        lemma_chunk_bytes_concat(a, b.drop_last());
        assert((a + b).drop_last() =~= a + b.drop_last());
        assert((a + b).last() == b.last());
        assert(chunk_bytes(a) + chunk_bytes(b.drop_last()) + (match b.last() {
            SinkEvent::Chunk(c) => c,
            SinkEvent::Line(_) => Seq::empty(),
        }) =~= chunk_bytes(a) + chunk_bytes(b));
    }
}

/// A source of bytes: a child's output or error stream, or a mock of
/// one.  `remaining` is the stream's model: the bytes it will still
/// yield before end-of-stream.
pub trait ByteSource: Sized {
    /// The bytes the stream will still yield: each implementation's
    /// own to define.
    spec fn remaining(&self) -> Seq<u8>;

    /// Yields the next run of bytes, or `None` at end-of-stream.  A
    /// read failure is a `StreamCopyFailed` error.
    fn read_chunk(&mut self) -> (r: Result<Option<Vec<u8>>, Error>)
        ensures
            (r matches Ok(c) ==> match c {
                Some(chunk) => chunk@.len() > 0
                    && old(self).remaining() == chunk@ + final(self).remaining(),
                None => final(self).remaining() == old(self).remaining()
                    && old(self).remaining().len() == 0,
            }),
            r matches Err(e) ==> e.kind == ErrorKind::StreamCopyFailed,
    ;
}

/// A host output sink: the supervisor's own standard output or error
/// stream, or a buffer standing in for one.  It records runs of
/// relayed bytes and status lines, in the order it received them; a
/// chunk counts as received only when it was written whole.
pub trait OutputSink: Sized {
    /// Everything the sink has received, in order: each
    /// implementation's own to define.
    spec fn events(&self) -> Seq<SinkEvent>;

    /// Appends one run of relayed bytes.  A write failure is a
    /// `StreamCopyFailed` error and records nothing.
    fn write_chunk(&mut self, chunk: &[u8]) -> (r: Result<(), Error>)
        ensures
            r is Ok ==> final(self).events() == old(self).events().push(SinkEvent::Chunk(chunk@)),
            (r matches Err(e) ==> e.kind == ErrorKind::StreamCopyFailed
                && final(self).events() == old(self).events()),
    ;

    /// Appends one status line.
    fn write_line(&mut self, line: &String)
        ensures
            final(self).events() == old(self).events().push(SinkEvent::Line(line@)),
    ;
}

/// Copies the source to the sink until the source closes: on success
/// the sink's relayed bytes have grown by exactly the source's bytes,
/// byte for byte, and the source is drained.  Whatever happens, the
/// sink has only grown, only by runs of relayed bytes, and those runs
/// are exactly a prefix of the source's bytes — a failure loses the
/// tail, never reorders, drops or invents a byte.  An input/output
/// failure on either end returns a `StreamCopyFailed` error.
pub fn relay<S: ByteSource, D: OutputSink>(source: &mut S, sink: &mut D) -> (r: Result<(), Error>)
    ensures
        r is Ok ==> final(source).remaining().len() == 0
            && chunk_bytes(final(sink).events())
                == chunk_bytes(old(sink).events()) + old(source).remaining(),
        r matches Err(e) ==> e.kind == ErrorKind::StreamCopyFailed,
        old(sink).events().is_prefix_of(final(sink).events()),
        forall|i: int| old(sink).events().len() <= i < final(sink).events().len()
            ==> final(sink).events()[i] is Chunk,
        chunk_bytes(final(sink).events()) == chunk_bytes(old(sink).events())
            + old(source).remaining().take(
            chunk_bytes(final(sink).events()).len() - chunk_bytes(old(sink).events()).len(),
        ),
{
    let ghost sink0 = sink.events();
    let ghost rem0 = source.remaining();
    let ghost mut copied = Seq::<u8>::empty();
    loop
        invariant
            sink0 == old(sink).events(),
            rem0 == old(source).remaining(),
            chunk_bytes(sink.events()) == chunk_bytes(sink0) + copied,
            copied + source.remaining() == rem0,
            sink0.is_prefix_of(sink.events()),
            forall|i: int| sink0.len() <= i < sink.events().len() ==> sink.events()[i] is Chunk,
        decreases source.remaining().len(),
    {
        let next = match source.read_chunk() {
            Ok(c) => c,
            Err(e) => {
                proof {
                    lemma_copied_is_a_prefix(chunk_bytes(sink0), copied, rem0);
                }
                return Err(e);
            },
        };
        match next {
            Some(chunk) => {
                let ghost events_before = sink.events();
                match sink.write_chunk(chunk.as_slice()) {
                    Ok(_) => {
                        proof {
                            lemma_chunk_bytes_push_chunk(events_before, chunk@);
                            assert(chunk_bytes(sink.events()) =~= chunk_bytes(sink0) + (copied
                                + chunk@));
                            assert((copied + chunk@) + source.remaining() =~= copied + (chunk@
                                + source.remaining()));
                            copied = copied + chunk@;
                        }
                    },
                    Err(e) => {
                        proof {
                            lemma_copied_is_a_prefix(chunk_bytes(sink0), copied, rem0);
                        }
                        return Err(e);
                    },
                }
            },
            None => {
                proof {
                    assert(copied =~= rem0);
                    lemma_copied_is_a_prefix(chunk_bytes(sink0), copied, rem0);
                }
                return Ok(());
            },
        }
    }
}

/// The bytes copied so far are a prefix of the bytes there were to
/// copy: what the relay's accounting gives at every one of its exits.
proof fn lemma_copied_is_a_prefix(done: Seq<u8>, copied: Seq<u8>, rem0: Seq<u8>)
    requires
        copied.len() <= rem0.len(),
        forall|i: int| 0 <= i < copied.len() ==> copied[i] == rem0[i],
    ensures
        done + copied == done + rem0.take(((done + copied).len() - done.len()) as int),
{
    assert(copied =~= rem0.take(copied.len() as int));
}

/// An in-memory byte stream: a mock child's output, yielded in bounded
/// runs, then end-of-stream.
pub struct MockStream {
    pub data: Vec<u8>,
    pub pos: usize,
}

impl MockStream {
    /// A stream that will yield exactly `data`.
    pub fn new(data: Vec<u8>) -> (s: MockStream)
        ensures
            s.remaining() == data@,
    {
        MockStream { data, pos: 0 }
    }
}

impl ByteSource for MockStream {
    open spec fn remaining(&self) -> Seq<u8> {
        if self.pos <= self.data@.len() {
            self.data@.skip(self.pos as int)
        } else {
            Seq::empty()
        }
    }

    fn read_chunk(&mut self) -> (r: Result<Option<Vec<u8>>, Error>) {
        if self.pos >= self.data.len() {
            Ok(None)
        } else {
            let mut n: usize = self.data.len() - self.pos;
            if n > 8 {
                n = 8;
            }
            let mut chunk: Vec<u8> = Vec::new();
            let mut i: usize = 0;
            while i < n
                invariant
                    i <= n,
                    self.pos + n <= self.data.len(),
                    n >= 1,
                    chunk@ == self.data@.subrange(self.pos as int, self.pos + i as int),
                decreases n - i,
            {
                chunk.push(self.data[self.pos + i]);
                proof {
                    assert(chunk@ =~= self.data@.subrange(
                        self.pos as int,
                        self.pos + (i + 1) as int,
                    ));
                }
                i = i + 1;
            }
            proof {
                assert(self.data@.skip(self.pos as int) =~= chunk@ + self.data@.skip(
                    self.pos + n as int,
                ));
            }
            self.pos = self.pos + n;
            Ok(Some(chunk))
        }
    }
}

/// One recorded item of an in-memory sink.
pub enum RecordedEvent {
    /// A run of relayed bytes.
    Chunk(Vec<u8>),
    /// A status line.
    Line(String),
}

impl View for RecordedEvent {
    type V = SinkEvent;

    open spec fn view(&self) -> SinkEvent {
        match self {
            RecordedEvent::Chunk(b) => SinkEvent::Chunk(b@),
            RecordedEvent::Line(l) => SinkEvent::Line(l@),
        }
    }
}

/// An in-memory host sink: records everything it receives, in order.
/// Tests inject it in place of the process-wide output streams.
pub struct SinkBuffer {
    pub items: Vec<RecordedEvent>,
}

impl SinkBuffer {
    /// An empty sink.
    pub fn new() -> (s: SinkBuffer)
        ensures
            s.events() == Seq::<SinkEvent>::empty(),
    {
        let s = SinkBuffer { items: Vec::new() };
        proof {
            assert(s.events() =~= Seq::<SinkEvent>::empty());
        }
        s
    }

    /// All bytes relayed into this sink, in order.
    pub fn relayed_bytes(&self) -> (r: Vec<u8>)
        ensures
            r@ == chunk_bytes(self.events()),
    {
        let mut r: Vec<u8> = Vec::new();
        let mut i: usize = 0;
        while i < self.items.len()
            invariant
                i <= self.items.len(),
                r@ == chunk_bytes(self.events().take(i as int)),
            decreases self.items.len() - i,
        {
            let ghost done = self.events().take(i as int);
            match &self.items[i] {
                RecordedEvent::Chunk(b) => {
                    r.extend_from_slice(b.as_slice());
                    proof {
                        assert(self.events().take(i + 1) =~= done.push(self.items@[i as int]@));
                        lemma_chunk_bytes_push_chunk(done, self.items@[i as int]@->Chunk_0);
                    }
                },
                RecordedEvent::Line(l) => {
                    proof {
                        assert(self.events().take(i + 1) =~= done.push(self.items@[i as int]@));
                        lemma_chunk_bytes_push_line(done, self.items@[i as int]@->Line_0);
                    }
                },
            }
            i = i + 1;
        }
        proof {
            assert(self.events().take(self.items@.len() as int) =~= self.events());
        }
        r
    }
}

impl OutputSink for SinkBuffer {
    open spec fn events(&self) -> Seq<SinkEvent> {
        self.items@.map_values(|e: RecordedEvent| e@)
    }

    fn write_chunk(&mut self, chunk: &[u8]) -> (r: Result<(), Error>) {
        let mut copy: Vec<u8> = Vec::new();
        copy.extend_from_slice(chunk);
        proof {
            assert(copy@ =~= chunk@);
        }
        self.items.push(RecordedEvent::Chunk(copy));
        proof {
            assert(self.events() =~= old(self).events().push(SinkEvent::Chunk(chunk@)));
        }
        Ok(())
    }

    fn write_line(&mut self, line: &String) {
        self.items.push(RecordedEvent::Line(line.clone()));
        proof {
            assert(self.events() =~= old(self).events().push(SinkEvent::Line(line@)));
        }
    }
}

} // verus!
