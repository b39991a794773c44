//! The read-ahead buffer of a stream, and reading a stream up to a byte
//! limit: bytes read but not delivered go back in front of the buffer.
use crate::error::HostError;
use crate::text::push_bytes;
use crate::stream::{failure_of, StreamFailure, StreamPayload, StreamRead};
use std::collections::VecDeque;
use vstd::prelude::*;

verus! {

broadcast use {
    vstd::std_specs::vec::group_vec_axioms,
    vstd::seq::group_seq_axioms,
    vstd::std_specs::vecdeque::group_vec_dequeue_axioms,
};

/// Bytes read from a stream ahead of the reader, delivered before any new
/// read from the stream.
pub struct StreamReadBuffer {
    bytes: VecDeque<u8>,
}

impl View for StreamReadBuffer {
    type V = Seq<u8>;

    closed spec fn view(&self) -> Seq<u8> {
        self.bytes@
    }
}

impl StreamReadBuffer {
    pub fn new() -> (buffer: StreamReadBuffer)
        ensures
            buffer@ == Seq::<u8>::empty(),
    {
        StreamReadBuffer { bytes: VecDeque::new() }
    }

    pub fn is_empty(&self) -> (empty: bool)
        ensures
            empty == (self@.len() == 0),
    {
        self.bytes.len() == 0
    }

    /// Puts `bytes` back in front of the buffered bytes, in order.
    pub fn prepend(&mut self, bytes: Vec<u8>)
        ensures
            final(self)@ == bytes@ + old(self)@,
    {
        let mut i: usize = bytes.len();
        while i > 0
            invariant
                i <= bytes@.len(),
                self@ == bytes@.subrange(i as int, bytes@.len() as int) + old(self)@,
            decreases i,
        {
            i = i - 1;
            self.bytes.push_front(bytes[i]);
            assert(self@ =~= bytes@.subrange(i as int, bytes@.len() as int) + old(self)@);
        }
        assert(bytes@.subrange(0, bytes@.len() as int) =~= bytes@);
    }

    /// Takes up to `max` buffered bytes from the front.
    pub fn read_from_buffer(&mut self, max: usize) -> (read: Vec<u8>)
        ensures
            read@ == old(self)@.take(if max < old(self)@.len() {
                max as int
            } else {
                old(self)@.len() as int
            }),
            final(self)@ == old(self)@.skip(read@.len() as int),
    {
        let requested = if max < self.bytes.len() {
            max
        } else {
            self.bytes.len()
        };
        let mut read: Vec<u8> = Vec::new();
        while read.len() < requested
            invariant
                requested == (if max < old(self)@.len() {
                    max as int
                } else {
                    old(self)@.len() as int
                }),
                read@.len() <= requested,
                read@ == old(self)@.take(read@.len() as int),
                self@ == old(self)@.skip(read@.len() as int),
            decreases requested - read@.len(),
        {
            let popped = self.bytes.pop_front();
            assert(popped is Some);
            if let Some(byte) = popped {
                read.push(byte);
                assert(read@ =~= old(self)@.take(read@.len() as int));
                assert(self@ =~= old(self)@.skip(read@.len() as int));
            }
        }
        read
    }
}

/// Where the bytes of one read come from.
pub enum BufferedRead {
    /// These bytes answer the read; the stream is not touched.
    Served(Vec<u8>),
    /// Nothing is buffered: read the stream itself.
    FromStream,
}

impl StreamReadBuffer {
    /// Serves a read of up to `max` bytes: a read of zero bytes is answered
    /// empty and consumes nothing, buffered bytes come before the stream,
    /// and only an empty buffer sends the read to the stream.
    pub fn serve(&mut self, max: usize) -> (read: BufferedRead)
        ensures
            if max == 0 {
                read matches BufferedRead::Served(d) && d@.len() == 0 && final(self)@ == old(self)@
            } else if old(self)@.len() > 0 {
                read matches BufferedRead::Served(d) && d@ == old(self)@.take(
                    if max < old(self)@.len() {
                        max as int
                    } else {
                        old(self)@.len() as int
                    },
                ) && d@.len() > 0 && final(self)@ == old(self)@.skip(d@.len() as int)
            } else {
                read is FromStream && final(self)@ == old(self)@
            },
    {
        if max == 0 {
            return BufferedRead::Served(Vec::new());
        }
        if self.is_empty() {
            return BufferedRead::FromStream;
        }
        BufferedRead::Served(self.read_from_buffer(max))
    }
}

/// Putting bytes back and reading at least as many returns them first.
pub proof fn lemma_prepend_then_read(put_back: Seq<u8>, buffered: Seq<u8>, max: nat)
    requires
        put_back.len() <= max,
    ensures
        (put_back + buffered).take(
            if max < (put_back + buffered).len() {
                max as int
            } else {
                (put_back + buffered).len() as int
            },
        ).take(put_back.len() as int) == put_back,
{
    let all = put_back + buffered;
    let n = if max < all.len() {
        max as int
    } else {
        all.len() as int
    };
    assert(all.take(n).take(put_back.len() as int) =~= put_back);
}

/// Largest chunk requested from the stream in one read.
pub const READ_CHUNK_BYTES: usize = 8192;

/// What one step of a read up to a limit yields.
pub enum ReadStep {
    /// Keep reading.
    Continue,
    /// The read is over, with this payload.
    Done(StreamPayload),
    /// The read failed; `unread` holds every byte read so far, to go back in
    /// front of the stream's buffer.
    Failed { failure: StreamFailure, unread: Vec<u8> },
}

/// Reading a stream until it ends, up to `limit_bytes` bytes.
pub struct ReadUntilLimit {
    limit_bytes: usize,
    body: Vec<u8>,
}

impl ReadUntilLimit {
    pub closed spec fn limit(&self) -> nat {
        self.limit_bytes as nat
    }

    /// Every byte read so far, in order.
    pub closed spec fn received(&self) -> Seq<u8> {
        self.body@
    }

    pub fn new(limit_bytes: usize) -> (reader: ReadUntilLimit)
        ensures
            reader.limit() == limit_bytes,
            reader.received() == Seq::<u8>::empty(),
    {
        ReadUntilLimit { limit_bytes, body: Vec::new() }
    }

    /// How many bytes to ask the stream for next: one more than the room
    /// left (so that a longer body is noticed), at most a chunk; `None` when
    /// the limit is reached and the read is over.
    pub fn next_read(&self) -> (size: Option<usize>)
        requires
            self.received().len() <= self.limit(),
        ensures
            match size {
                None => self.received().len() == self.limit(),
                Some(n) => self.received().len() < self.limit() && n == if self.limit()
                    - self.received().len() + 1 < READ_CHUNK_BYTES {
                    self.limit() - self.received().len() + 1
                } else {
                    READ_CHUNK_BYTES as int
                },
            },
    {
        let remaining = self.limit_bytes - self.body.len();
        if remaining == 0 {
            return None;
        }
        let wanted = remaining.saturating_add(1);
        Some(
            if wanted < READ_CHUNK_BYTES {
                wanted
            } else {
                READ_CHUNK_BYTES
            },
        )
    }

    /// The payload once the limit is reached: everything read.
    pub fn finish(self) -> (payload: StreamPayload)
        ensures
            payload matches StreamPayload::Read(StreamRead::Data(body)) && body@ == self.received(),
    {
        StreamPayload::Read(StreamRead::Data(self.body))
    }

    /// The stream returned `chunk` (at least one byte). Past the limit the
    /// read fails and hands back everything read; otherwise it goes on.
    pub fn on_data(&mut self, chunk: &[u8]) -> (step: ReadStep)
        requires
            old(self).received().len() <= old(self).limit(),
        ensures
            final(self).limit() == old(self).limit(),
            if old(self).received().len() + chunk@.len() > old(self).limit() {
                step matches ReadStep::Failed { failure, unread } && failure
                    == (StreamFailure::LimitExceeded { limit_bytes: old(self).limit() as usize })
                    && unread@ == old(self).received() + chunk@
            } else {
                step is Continue && final(self).received() == old(self).received() + chunk@
            },
            final(self).received().len() <= final(self).limit(),
    {
        let over = match self.body.len().checked_add(chunk.len()) {
            Some(total) => total > self.limit_bytes,
            None => true,
        };
        if over {
            let mut unread: Vec<u8> = Vec::new();
            std::mem::swap(&mut unread, &mut self.body);
            push_bytes(&mut unread, chunk);
            return ReadStep::Failed {
                failure: StreamFailure::LimitExceeded { limit_bytes: self.limit_bytes },
                unread,
            };
        }
        push_bytes(&mut self.body, chunk);
        ReadStep::Continue
    }

    /// The stream ended: nothing read is the end of the stream, otherwise
    /// the bytes read are the payload.
    pub fn on_eof(self) -> (payload: StreamPayload)
        ensures
            if self.received().len() == 0 {
                payload == StreamPayload::Read(StreamRead::Eof)
            } else {
                payload matches StreamPayload::Read(StreamRead::Data(body)) && body@ == self.received()
            },
    {
        if self.body.len() == 0 {
            StreamPayload::Read(StreamRead::Eof)
        } else {
            StreamPayload::Read(StreamRead::Data(self.body))
        }
    }

    /// A read failed: the failure that the error stands for, and every byte
    /// read so far, to be put back.
    pub fn on_error(self, error: HostError) -> (failed: (StreamFailure, Vec<u8>))
        ensures
            failed.0 == failure_of(error),
            failed.1@ == self.received(),
    {
        (StreamFailure::from_host(error), self.body)
    }
}

} // verus!
