//! Framing and sequencing of one exchange over a connected stream socket.
//!
//! A message ends at the first read that returns fewer bytes than a chunk;
//! there is no length prefix. The exchange is connect, wait until writable,
//! write all of the request, wait until readable, read the whole reply, close.
//! The socket calls themselves are made by the caller, which reports what each
//! one returned.
use vstd::prelude::*;
use vstd::slice::slice_subrange;

verus! {

/// Bytes asked of the socket by each read.
pub const CHUNK_SIZE: usize = 128;

/// Milliseconds to wait for the socket to become writable, and readable.
pub const POLL_TIMEOUT_MS: i32 = 2500;

/// The message that a sequence of reads delivers: every chunk up to and
/// including the first short one.
pub open spec fn message_of(chunks: Seq<Seq<u8>>) -> Seq<u8>
    decreases chunks.len(),
{
    if chunks.len() == 0 {
        Seq::empty()
    } else if chunks[0].len() < CHUNK_SIZE {
        chunks[0]
    } else {
        chunks[0] + message_of(chunks.drop_first())
    }
}

/// The reads by which a peer that sends `data` and then closes delivers it:
/// full chunks, then a short (possibly empty) one.
pub open spec fn reads_of(data: Seq<u8>) -> Seq<Seq<u8>>
    decreases data.len(),
{
    if data.len() < CHUNK_SIZE {
        seq![data]
    } else {
        seq![data.take(CHUNK_SIZE as int)] + reads_of(data.skip(CHUNK_SIZE as int))
    }
}

/// Reading a message from a peer that sends `data` and then closes returns
/// exactly `data`.
pub proof fn lemma_read_all_returns_what_was_sent(data: Seq<u8>)
    ensures
        message_of(reads_of(data)) == data,
    decreases data.len(),
{
    if data.len() >= CHUNK_SIZE {
        let rest = data.skip(CHUNK_SIZE as int);
        lemma_read_all_returns_what_was_sent(rest);
        let rs = reads_of(data);
        assert(rs.drop_first() =~= reads_of(rest));
        assert(data.take(CHUNK_SIZE as int) + rest =~= data);
    }
}

/// Accumulates the reads of one message.
pub struct MessageReader {
    received: Vec<u8>,
    finished: bool,
    /// The reads taken so far.
    chunks: Ghost<Seq<Seq<u8>>>,
}

impl MessageReader {
    pub closed spec fn wf(&self) -> bool {
        &&& self.finished ==> self.chunks@.len() > 0 && self.chunks@.last().len() < CHUNK_SIZE
        &&& forall|i: int| 0 <= i < self.chunks@.len() - 1 ==> #[trigger] self.chunks@[i].len() == CHUNK_SIZE
        &&& !self.finished ==> forall|i: int| 0 <= i < self.chunks@.len() ==> #[trigger] self.chunks@[i].len() == CHUNK_SIZE
        &&& self.received@ == message_of(self.chunks@)
    }

    pub closed spec fn spec_chunks(&self) -> Seq<Seq<u8>> {
        self.chunks@
    }

    pub closed spec fn spec_received(&self) -> Seq<u8> {
        self.received@
    }

    pub closed spec fn spec_finished(&self) -> bool {
        self.finished
    }

    pub fn new() -> (r: MessageReader)
        ensures
            r.wf(),
            r.spec_chunks().len() == 0,
            !r.spec_finished(),
            r.spec_received().len() == 0,
    {
        MessageReader { received: Vec::new(), finished: false, chunks: Ghost(Seq::empty()) }
    }

    /// Whether the message has ended.
    pub fn is_finished(&self) -> (r: bool)
        ensures
            r == self.spec_finished(),
    {
        self.finished
    }

    /// Takes the bytes that one read returned; returns whether to read again.
    pub fn push_chunk(&mut self, chunk: &[u8]) -> (more: bool)
        requires
            old(self).wf(),
            !old(self).spec_finished(),
            chunk@.len() <= CHUNK_SIZE,
        ensures
            final(self).wf(),
            final(self).spec_chunks() == old(self).spec_chunks().push(chunk@),
            final(self).spec_received() == old(self).spec_received() + chunk@,
            more == (chunk@.len() == CHUNK_SIZE),
            final(self).spec_finished() == !more,
    {
        let ghost before = self.chunks@;
        let mut i: usize = 0;
        while i < chunk.len()
            invariant
                0 <= i <= chunk.len(),
                self.received@ == message_of(before) + chunk@.take(i as int),
            decreases chunk.len() - i,
        {
            self.received.push(chunk[i]);
            proof {
                assert(chunk@.take(i + 1) =~= chunk@.take(i as int).push(chunk@[i as int]));
            }
            i = i + 1;
        }
        self.chunks = Ghost(before.push(chunk@));
        proof {
            assert(chunk@.take(chunk@.len() as int) =~= chunk@);
            lemma_message_of_push(before, chunk@);
        }
        self.finished = chunk.len() < CHUNK_SIZE;
        !self.finished
    }

    /// The whole message, with its length.
    pub fn finish(self) -> (r: (usize, Vec<u8>))
        ensures
            r.1@ == self.spec_received(),
            r.0 == r.1@.len(),
    {
        let n = self.received.len();
        (n, self.received)
    }
}

/// Adding a read after full chunks extends the message by that read.
proof fn lemma_message_of_push(chunks: Seq<Seq<u8>>, c: Seq<u8>)
    requires
        forall|i: int| 0 <= i < chunks.len() ==> #[trigger] chunks[i].len() == CHUNK_SIZE,
    ensures
        message_of(chunks.push(c)) == message_of(chunks) + c,
    decreases chunks.len(),
{
    if chunks.len() == 0 {
        assert(chunks.push(c).drop_first() =~= Seq::<Seq<u8>>::empty());
        if c.len() >= CHUNK_SIZE {
            assert(message_of(chunks.push(c)) == c + message_of(Seq::<Seq<u8>>::empty()));
            assert(c + Seq::<u8>::empty() =~= c);
        }
        assert(Seq::<u8>::empty() + c =~= c);
    } else {
        let rest = chunks.drop_first();
        assert forall|i: int| 0 <= i < rest.len() implies #[trigger] rest[i].len() == CHUNK_SIZE by {
            assert(rest[i] == chunks[i + 1]);
        }
        lemma_message_of_push(rest, c);
        assert(chunks.push(c).drop_first() =~= rest.push(c));
        assert(chunks.push(c)[0] == chunks[0]);
        assert(chunks[0] + (message_of(rest) + c) =~= (chunks[0] + message_of(rest)) + c);
    }
}

/// A failure of the transport.
#[derive(Debug, Clone, Copy, PartialEq, Eq, Structural)]
pub enum TransportError {
    ConnectError,
    PollTimeout,
    PollError,
    WriteError,
    ReadError,
    CloseError,
}

impl TransportError {
    /// The message of the failure.
    pub fn message(&self) -> (r: String)
        ensures
            r@ == match self {
                TransportError::ConnectError => "Failed to connect to socket"@,
                TransportError::PollTimeout => "Failed to become ready in time"@,
                TransportError::PollError => "Failed to wait for the socket"@,
                TransportError::WriteError => "Socket failed to write data"@,
                TransportError::ReadError => "Socket failed to read data"@,
                TransportError::CloseError => "Failed to close the socket"@,
            },
    {
        match self {
            TransportError::ConnectError => String::from_str("Failed to connect to socket"),
            TransportError::PollTimeout => String::from_str("Failed to become ready in time"),
            TransportError::PollError => String::from_str("Failed to wait for the socket"),
            TransportError::WriteError => String::from_str("Socket failed to write data"),
            TransportError::ReadError => String::from_str("Socket failed to read data"),
            TransportError::CloseError => String::from_str("Failed to close the socket"),
        }
    }
}

/// Where an exchange stands.
#[derive(Debug, Clone, Copy, PartialEq, Eq, Structural)]
pub enum Phase {
    Connecting,
    AwaitingWritable,
    Writing,
    AwaitingReadable,
    Reading,
    Closing,
    /// Failed with this error; the socket is still to be closed.
    Failed(TransportError),
}

/// What the caller is to do next on the socket.
#[derive(Debug, Clone, Copy, PartialEq, Eq, Structural)]
pub enum Action {
    Connect,
    /// Wait until writable, for at most this many milliseconds.
    PollWrite(i32),
    /// Write the request from this offset on.
    Write(usize),
    /// Wait until readable, for at most this many milliseconds.
    PollRead(i32),
    /// Read at most this many bytes.
    Read(usize),
    Close,
}

/// One request sent and its reply received over a fresh connection.
pub struct Exchange {
    phase: Phase,
    request: Vec<u8>,
    written: usize,
    reader: MessageReader,
}

impl Exchange {
    pub open spec fn wf(&self) -> bool {
        &&& self.spec_written() <= self.spec_request().len()
        &&& self.reader_wf()
        &&& self.spec_phase() is Closing ==> self.spec_reader_finished()
        &&& !(self.spec_phase() is Closing || self.spec_phase() is Failed)
            ==> !self.spec_reader_finished()
    }

    pub closed spec fn reader_wf(&self) -> bool {
        self.reader.wf()
    }

    pub closed spec fn spec_reader_finished(&self) -> bool {
        self.reader.spec_finished()
    }

    pub closed spec fn spec_phase(&self) -> Phase {
        self.phase
    }

    pub closed spec fn spec_request(&self) -> Seq<u8> {
        self.request@
    }

    pub closed spec fn spec_written(&self) -> nat {
        self.written as nat
    }

    /// The bytes of the reply received so far.
    pub closed spec fn spec_reply(&self) -> Seq<u8> {
        self.reader.spec_received()
    }

    /// The reads of the reply taken so far.
    pub closed spec fn spec_chunks(&self) -> Seq<Seq<u8>> {
        self.reader.spec_chunks()
    }

    pub fn new(request: Vec<u8>) -> (r: Exchange)
        ensures
            r.wf(),
            r.spec_phase() == Phase::Connecting,
            r.spec_request() == request@,
            r.spec_written() == 0,
            r.spec_reply().len() == 0,
            r.spec_chunks().len() == 0,
    {
        Exchange { phase: Phase::Connecting, request, written: 0, reader: MessageReader::new() }
    }

    pub fn phase(&self) -> (r: Phase)
        ensures
            r == self.spec_phase(),
    {
        self.phase
    }

    /// The next socket operation.
    pub fn next_action(&self) -> (r: Action)
        requires
            self.wf(),
        ensures
            r == match self.spec_phase() {
                Phase::Connecting => Action::Connect,
                Phase::AwaitingWritable => Action::PollWrite(POLL_TIMEOUT_MS),
                Phase::Writing => Action::Write(self.spec_written() as usize),
                Phase::AwaitingReadable => Action::PollRead(POLL_TIMEOUT_MS),
                Phase::Reading => Action::Read(CHUNK_SIZE),
                Phase::Closing => Action::Close,
                Phase::Failed(_) => Action::Close,
            },
    {
        match self.phase {
            Phase::Connecting => Action::Connect,
            Phase::AwaitingWritable => Action::PollWrite(POLL_TIMEOUT_MS),
            Phase::Writing => Action::Write(self.written),
            Phase::AwaitingReadable => Action::PollRead(POLL_TIMEOUT_MS),
            Phase::Reading => Action::Read(CHUNK_SIZE),
            Phase::Closing => Action::Close,
            Phase::Failed(_) => Action::Close,
        }
    }

    /// The part of the request that is still to be written.
    pub fn pending(&self) -> (r: &[u8])
        requires
            self.wf(),
        ensures
            r@ == self.spec_request().skip(self.spec_written() as int),
    {
        let r = slice_subrange(self.request.as_slice(), self.written, self.request.len());
        proof {
            assert(r@ =~= self.spec_request().skip(self.spec_written() as int));
        }
        r
    }

    /// Reports the outcome of `Connect`.
    pub fn on_connect(&mut self, ok: bool) -> (r: Result<(), TransportError>)
        requires
            old(self).wf(),
            old(self).spec_phase() == Phase::Connecting,
        ensures
            final(self).wf(),
            final(self).spec_request() == old(self).spec_request(),
            final(self).spec_written() == old(self).spec_written(),
            final(self).spec_reply() == old(self).spec_reply(),
            ok ==> r is Ok && final(self).spec_phase() == Phase::AwaitingWritable,
            !ok ==> r == Err::<(), TransportError>(TransportError::ConnectError) && final(self).spec_phase() == Phase::Failed(
                TransportError::ConnectError,
            ),
    {
        if ok {
            self.phase = Phase::AwaitingWritable;
            Ok(())
        } else {
            self.phase = Phase::Failed(TransportError::ConnectError);
            Err(TransportError::ConnectError)
        }
    }

    /// Reports what a poll returned: the number of ready descriptors, zero
    /// when the wait timed out, negative when the poll itself failed.
    pub fn on_poll(&mut self, ready: i32) -> (r: Result<(), TransportError>)
        requires
            old(self).wf(),
            old(self).spec_phase() == Phase::AwaitingWritable || old(self).spec_phase() == Phase::AwaitingReadable,
        ensures
            final(self).wf(),
            final(self).spec_request() == old(self).spec_request(),
            final(self).spec_written() == old(self).spec_written(),
            final(self).spec_reply() == old(self).spec_reply(),
            ready > 0 ==> r is Ok && final(self).spec_phase() == if old(self).spec_phase() == Phase::AwaitingWritable {
                Phase::Writing
            } else {
                Phase::Reading
            },
            ready == 0 ==> r == Err::<(), TransportError>(TransportError::PollTimeout) && final(self).spec_phase() == Phase::Failed(
                TransportError::PollTimeout,
            ),
            ready < 0 ==> r == Err::<(), TransportError>(TransportError::PollError) && final(self).spec_phase() == Phase::Failed(
                TransportError::PollError,
            ),
    {
        if ready > 0 {
            self.phase = if self.phase == Phase::AwaitingWritable {
                Phase::Writing
            } else {
                Phase::Reading
            };
            Ok(())
        } else {
            let e = if ready == 0 {
                TransportError::PollTimeout
            } else {
                TransportError::PollError
            };
            self.phase = Phase::Failed(e);
            Err(e)
        }
    }

    /// Reports what a write returned: the number of bytes written, or `None`
    /// when it failed. A short write is followed by another of the rest; a
    /// write that makes no progress fails the exchange.
    pub fn on_write(&mut self, written: Option<usize>) -> (r: Result<(), TransportError>)
        requires
            old(self).wf(),
            old(self).spec_phase() == Phase::Writing,
        ensures
            final(self).wf(),
            final(self).spec_request() == old(self).spec_request(),
            final(self).spec_reply() == old(self).spec_reply(),
            match written {
                Some(n) if 0 < n <= old(self).spec_request().len() - old(self).spec_written() => {
                    &&& r is Ok
                    &&& final(self).spec_written() == old(self).spec_written() + n
                    &&& final(self).spec_phase() == if final(self).spec_written() == final(self).spec_request().len() {
                        Phase::AwaitingReadable
                    } else {
                        Phase::Writing
                    }
                },
                _ => r == Err::<(), TransportError>(TransportError::WriteError) && final(self).spec_phase() == Phase::Failed(
                    TransportError::WriteError,
                ),
            },
    {
        match written {
            Some(n) => {
                if n > 0 && n <= self.request.len() - self.written {
                    self.written = self.written + n;
                    if self.written == self.request.len() {
                        self.phase = Phase::AwaitingReadable;
                    }
                    Ok(())
                } else {
                    self.phase = Phase::Failed(TransportError::WriteError);
                    Err(TransportError::WriteError)
                }
            },
            None => {
                self.phase = Phase::Failed(TransportError::WriteError);
                Err(TransportError::WriteError)
            },
        }
    }

    /// Reports what a read returned: the bytes read, or `None` when it failed.
    pub fn on_read(&mut self, chunk: Option<&[u8]>) -> (r: Result<(), TransportError>)
        requires
            old(self).wf(),
            old(self).spec_phase() == Phase::Reading,
            chunk matches Some(c) ==> c@.len() <= CHUNK_SIZE,
        ensures
            final(self).wf(),
            final(self).spec_request() == old(self).spec_request(),
            final(self).spec_written() == old(self).spec_written(),
            match chunk {
                Some(c) => {
                    &&& r is Ok
                    &&& final(self).spec_chunks() == old(self).spec_chunks().push(c@)
                    &&& final(self).spec_reply() == old(self).spec_reply() + c@
                    &&& final(self).spec_phase() == if c@.len() < CHUNK_SIZE {
                        Phase::Closing
                    } else {
                        Phase::Reading
                    }
                },
                None => r == Err::<(), TransportError>(TransportError::ReadError) && final(self).spec_phase() == Phase::Failed(
                    TransportError::ReadError,
                )
                    && final(self).spec_reply() == old(self).spec_reply(),
            },
    {
        match chunk {
            Some(c) => {
                let more = self.reader.push_chunk(c);
                if !more {
                    self.phase = Phase::Closing;
                }
                Ok(())
            },
            None => {
                self.phase = Phase::Failed(TransportError::ReadError);
                Err(TransportError::ReadError)
            },
        }
    }

    /// Reports the outcome of `Close`, which ends every exchange, failed or
    /// not: the error of a failed exchange, or else the reply and its length.
    pub fn on_close(self, ok: bool) -> (r: Result<(usize, Vec<u8>), TransportError>)
        requires
            self.wf(),
            self.spec_phase() is Closing || self.spec_phase() is Failed,
        ensures
            self.spec_phase() matches Phase::Failed(e) ==> r == Err::<(usize, Vec<u8>), TransportError>(e),
            self.spec_phase() is Closing && ok ==> r is Ok && r->Ok_0.1@ == self.spec_reply() && r->Ok_0.0 == self.spec_reply().len()
                && self.spec_reply() == message_of(self.spec_chunks()),
            self.spec_phase() is Closing && !ok ==> r == Err::<(usize, Vec<u8>), TransportError>(
                TransportError::CloseError,
            ),
    {
        if let Phase::Failed(e) = self.phase {
            return Err(e);
        }
        if ok {
            proof {
                assert(self.reader.wf());
            }
            Ok(self.reader.finish())
        } else {
            Err(TransportError::CloseError)
        }
    }
}

} // verus!
