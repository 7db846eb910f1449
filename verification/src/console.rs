//! The console log forwarder: what the guest writes to its console, cut
//! into lines for the host's log.
//!
//! The guest's console is a byte stream that the host reads in chunks of
//! whatever size arrives. A line ends at a line feed; the line feed is not
//! part of the record. When the stream ends, what is left without a line
//! feed is the last record.

use vstd::prelude::*;

verus! {

/// The byte that ends a line.
pub const LINE_FEED: u8 = 10;

/// Reading `chunk` byte by byte behind the unfinished line `pending`: the
/// lines that it completes, in order, and the line that is left
/// unfinished.
pub open spec fn scan(pending: Seq<u8>, chunk: Seq<u8>) -> (Seq<Seq<u8>>, Seq<u8>)
    decreases chunk.len(),
{
    if chunk.len() == 0 {
        (Seq::empty(), pending)
    } else {
        let (lines, unfinished) = scan(pending, chunk.drop_last());
        if chunk.last() == LINE_FEED {
            (lines.push(unfinished), Seq::empty())
        } else {
            (lines, unfinished.push(chunk.last()))
        }
    }
}

/// The records of a stream that has ended: its lines, and what follows
/// the last line feed where that is not empty.
pub open spec fn records(stream: Seq<u8>) -> Seq<Seq<u8>> {
    let (lines, unfinished) = scan(Seq::empty(), stream);
    if unfinished.len() == 0 {
        lines
    } else {
        lines.push(unfinished)
    }
}

/// The lines one after the other, each followed by a line feed.
pub open spec fn joined(lines: Seq<Seq<u8>>) -> Seq<u8>
    decreases lines.len(),
{
    if lines.len() == 0 {
        Seq::empty()
    } else {
        joined(lines.drop_last()) + lines.last() + seq![LINE_FEED]
    }
}

/// Whether `bytes` hold no line feed.
pub open spec fn unbroken(bytes: Seq<u8>) -> bool {
    forall|i: int| 0 <= i < bytes.len() ==> bytes[i] != LINE_FEED
}

/// The contents of a list of byte vectors.
pub open spec fn contents(lines: Seq<Vec<u8>>) -> Seq<Seq<u8>> {
    Seq::new(lines.len(), |i: int| lines[i]@)
}

/// What the forwarder does after one read of the console.
#[derive(Debug, PartialEq, Eq)]
pub struct Forwarded {
    /// The records to log, in order.
    pub records: Vec<Vec<u8>>,
    /// Whether the console is closed and the forwarder ends.
    pub finished: bool,
}

/// Cuts a stream that arrives in chunks into lines.
#[derive(Debug)]
pub struct LineSplitter {
    pending: Vec<u8>,
}

impl View for LineSplitter {
    type V = Seq<u8>;

    /// The bytes of the line that is not finished yet.
    closed spec fn view(&self) -> Seq<u8> {
        self.pending@
    }
}

impl LineSplitter {
    /// A splitter at the start of a stream.
    pub fn new() -> (splitter: LineSplitter)
        ensures
            splitter@ == Seq::<u8>::empty(),
    {
        LineSplitter { pending: Vec::new() }
    }

    /// Takes the next chunk of the stream and returns the lines that it
    /// completes, without their line feeds.
    pub fn feed(&mut self, chunk: &[u8]) -> (lines: Vec<Vec<u8>>)
        ensures
            (contents(lines@), final(self)@) == scan(old(self)@, chunk@),
    {
        let mut lines: Vec<Vec<u8>> = Vec::new();
        let mut i: usize = 0;
        assert(chunk@.take(0) == Seq::<u8>::empty());
        assert(contents(lines@) == Seq::<Seq<u8>>::empty());
        while i < chunk.len()
            invariant
                i <= chunk.len(),
                (contents(lines@), self@) == scan(old(self)@, chunk@.take(i as int)),
            decreases chunk.len() - i,
        {
            let byte = chunk[i];
            let ghost lines_before = lines@;
            let ghost pending_before = self@;
            proof {
                let next = chunk@.take(i + 1);
                assert(next.drop_last() == chunk@.take(i as int));
                assert(next.last() == byte);
            }
            if byte == LINE_FEED {
                let mut line: Vec<u8> = Vec::new();
                line.append(&mut self.pending);
                assert(line@ == pending_before);
                lines.push(line);
                assert(contents(lines@) == contents(lines_before).push(pending_before));
            } else {
                self.pending.push(byte);
            }
            i += 1;
        }
        assert(chunk@.take(chunk.len() as int) == chunk@);
        lines
    }

    /// Ends the stream: what is left without a line feed is the last
    /// record, unless nothing is left.
    pub fn finish(self) -> (last: Option<Vec<u8>>)
        ensures
            self@.len() == 0 ==> last is None,
            self@.len() > 0 ==> last is Some && last->Some_0@ == self@,
    {
        if self.pending.len() == 0 {
            None
        } else {
            Some(self.pending)
        }
    }

    /// One step of the forwarder: takes what a read of the console
    /// brought. A read of no bytes means that the guest has closed the
    /// console: the forwarder logs what is left and ends. Any other read
    /// gives the lines that it completes.
    pub fn forward(&mut self, chunk: &[u8]) -> (step: Forwarded)
        ensures
            step.finished == (chunk@.len() == 0),
            chunk@.len() > 0 ==> (contents(step.records@), final(self)@) == scan(
                old(self)@,
                chunk@,
            ),
            chunk@.len() == 0 ==> final(self)@ == Seq::<u8>::empty() && contents(step.records@)
                == (if old(self)@.len() == 0 {
                Seq::<Seq<u8>>::empty()
            } else {
                seq![old(self)@]
            }),
    {
        if chunk.len() == 0 {
            let mut records: Vec<Vec<u8>> = Vec::new();
            if self.pending.len() != 0 {
                let mut line: Vec<u8> = Vec::new();
                line.append(&mut self.pending);
                records.push(line);
                assert(contents(records@) == seq![old(self)@]);
            } else {
                assert(contents(records@) == Seq::<Seq<u8>>::empty());
                assert(self@ == Seq::<u8>::empty());
            }
            Forwarded { records, finished: true }
        } else {
            let records = self.feed(chunk);
            Forwarded { records, finished: false }
        }
    }
}

/// Cuts a whole stream into its records.
pub fn split_lines(stream: &[u8]) -> (lines: Vec<Vec<u8>>)
    ensures
        contents(lines@) == records(stream@),
{
    let mut splitter = LineSplitter::new();
    let mut lines = splitter.feed(stream);
    let ghost complete = lines@;
    match splitter.finish() {
        Some(last) => {
            lines.push(last);
            assert(contents(lines@) == contents(complete).push(last@));
        },
        None => {},
    }
    lines
}

/// However a stream is cut into chunks, the lines are the same: reading
/// two chunks one after the other completes the lines that reading them as
/// one chunk completes, and leaves the same line unfinished.
pub proof fn law_chunking_does_not_matter(pending: Seq<u8>, first: Seq<u8>, second: Seq<u8>)
    ensures
        scan(pending, first + second) == ({
            let (lines, unfinished) = scan(pending, first);
            let (more, left) = scan(unfinished, second);
            (lines + more, left)
        }),
    decreases second.len(),
{
    let (lines, unfinished) = scan(pending, first);
    if second.len() == 0 {
        assert(first + second == first);
        assert(lines + Seq::<Seq<u8>>::empty() == lines);
    } else {
        let whole = first + second;
        assert(whole.drop_last() == first + second.drop_last());
        assert(whole.last() == second.last());
        law_chunking_does_not_matter(pending, first, second.drop_last());
        let (more, left) = scan(unfinished, second.drop_last());
        if second.last() == LINE_FEED {
            assert((lines + more).push(left) == lines + more.push(left));
        }
    }
}

/// Nothing is lost and nothing is added: the completed lines, each with
/// its line feed back in place, and then the unfinished line, are the
/// bytes that were read. No record holds a line feed.
pub proof fn law_lines_are_the_stream(pending: Seq<u8>, chunk: Seq<u8>)
    requires
        unbroken(pending),
    ensures
        ({
            let (lines, unfinished) = scan(pending, chunk);
            &&& joined(lines) + unfinished == pending + chunk
            &&& unbroken(unfinished)
            &&& forall|i: int| 0 <= i < lines.len() ==> unbroken(#[trigger] lines[i])
        }),
    decreases chunk.len(),
{
    let (lines, unfinished) = scan(pending, chunk);
    if chunk.len() == 0 {
        assert(joined(lines) + unfinished == pending + chunk);
    } else {
        let (before, open) = scan(pending, chunk.drop_last());
        law_lines_are_the_stream(pending, chunk.drop_last());
        assert(pending + chunk == (pending + chunk.drop_last()).push(chunk.last()));
        if chunk.last() == LINE_FEED {
            assert(lines.drop_last() == before);
            assert(lines.last() == open);
            assert(joined(lines) + unfinished == (joined(before) + open).push(LINE_FEED));
        } else {
            assert(joined(lines) + unfinished == (joined(before) + open).push(chunk.last()));
        }
    }
}

} // verus!
