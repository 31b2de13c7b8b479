use vstd::prelude::*;

use std::rc::Rc;

use crate::addr::{Connection, IoError, SockAddr};
use crate::buf::{
    complete_read, complete_readv, complete_write, complete_writev, read_done, read_fits,
    readv_done, total_cap, total_len, write_done, write_fits, writev_done, Buffer, ReadCompletion,
    WriteCompletion,
};
use crate::stream::{
    begin_shutdown, end_shutdown, shutdown_step, state_after_shutdown, SendState, ShutdownStep,
    Stream,
};

verus! {

/// Relies on `Rc::clone`: the new pointer refers to the same allocation, so to the
/// same value.
#[verifier::external_body]
fn share<T>(cell: &Rc<T>) -> (r: Rc<T>)
    ensures
        *r == **cell,
{
    Rc::clone(cell)
}

/// The receive side of a stream split by [`Stream::into_split`]. It shares the
/// heap cell that holds the connection with its write half.
pub struct OwnedReadHalf {
    cell: Rc<Connection>,
}

/// The send side of a stream split by [`Stream::into_split`]. It shares the heap
/// cell that holds the connection with its read half, and alone holds the state of
/// the send direction: no receive-side operation reaches it.
pub struct OwnedWriteHalf {
    cell: Rc<Connection>,
    send: SendState,
}

/// Two halves that were not split from the same stream, and so could not be
/// reunited; both are handed back as they were.
pub struct ReuniteError(pub OwnedReadHalf, pub OwnedWriteHalf);

impl OwnedReadHalf {
    /// The connection held by the shared cell.
    pub closed spec fn conn(&self) -> Connection {
        *self.cell
    }

    pub fn fd(&self) -> (r: i32)
        ensures
            r == self.conn().fd,
    {
        self.cell.fd
    }

    /// Returns the remote address that this stream is connected to.
    pub fn peer_addr(&self) -> (r: SockAddr)
        ensures
            r == self.conn().peer,
    {
        self.cell.peer
    }

    /// Returns the local address that this stream is bound to.
    pub fn local_addr(&self) -> (r: SockAddr)
        ensures
            r == self.conn().local,
    {
        self.cell.local
    }

    /// Completes a read into `buf` with what the completion subsystem reported.
    pub fn read(&mut self, buf: Buffer, c: ReadCompletion) -> (r: (Result<usize, IoError>, Buffer))
        requires
            read_fits(c, buf.cap()),
        ensures
            read_done(buf, c, r),
            *final(self) == *old(self),
    {
        complete_read(buf, c)
    }

    /// Completes a vectored read into `bufs` with what the completion subsystem
    /// reported.
    pub fn readv(&mut self, bufs: Vec<Buffer>, c: ReadCompletion) -> (r: (
        Result<usize, IoError>,
        Vec<Buffer>,
    ))
        requires
            read_fits(c, total_cap(bufs@)),
        ensures
            readv_done(bufs@, c, r.0, r.1@),
            *final(self) == *old(self),
    {
        complete_readv(bufs, c)
    }

    /// Gives the half up. Dropping the read half never shuts anything down: the
    /// result, the descriptor whose send direction is to be shut, is always `None`.
    pub fn teardown(self) -> (r: Option<i32>)
        ensures
            r is None,
    {
        None
    }
}

impl OwnedWriteHalf {
    /// The connection held by the shared cell.
    pub closed spec fn conn(&self) -> Connection {
        *self.cell
    }

    pub closed spec fn send(&self) -> SendState {
        self.send
    }

    pub fn fd(&self) -> (r: i32)
        ensures
            r == self.conn().fd,
    {
        self.cell.fd
    }

    /// Returns the remote address that this stream is connected to.
    pub fn peer_addr(&self) -> (r: SockAddr)
        ensures
            r == self.conn().peer,
    {
        self.cell.peer
    }

    /// Returns the local address that this stream is bound to.
    pub fn local_addr(&self) -> (r: SockAddr)
        ensures
            r == self.conn().local,
    {
        self.cell.local
    }

    pub fn send_state(&self) -> (r: SendState)
        ensures
            r == self.send(),
    {
        self.send
    }

    /// Completes a write of `buf` with what the completion subsystem reported.
    pub fn write(&mut self, buf: Buffer, c: WriteCompletion) -> (r: (Result<usize, IoError>, Buffer))
        requires
            write_fits(c, buf.contents().len()),
        ensures
            write_done(buf, c, r),
            *final(self) == *old(self),
    {
        complete_write(buf, c)
    }

    /// Completes a vectored write of `bufs` with what the completion subsystem
    /// reported.
    pub fn writev(&mut self, bufs: Vec<Buffer>, c: WriteCompletion) -> (r: (
        Result<usize, IoError>,
        Vec<Buffer>,
    ))
        requires
            write_fits(c, total_len(bufs@)),
        ensures
            writev_done(bufs@, c, r.0, r.1@),
            *final(self) == *old(self),
    {
        complete_writev(bufs, c)
    }

    /// Nothing is buffered on this side of the connection, so there is nothing to
    /// flush.
    pub fn flush(&mut self) -> (r: Result<(), IoError>)
        ensures
            r == Ok::<(), IoError>(()),
            *final(self) == *old(self),
    {
        Ok(())
    }

    /// Asks to shut the send direction down.
    pub fn shutdown(&mut self) -> (r: ShutdownStep)
        ensures
            r == shutdown_step(old(self).conn().fd, old(self).send()),
            *final(self) == *old(self),
    {
        begin_shutdown(self.cell.fd, self.send)
    }

    /// Takes the outcome of a submitted half-close and passes it on.
    pub fn shutdown_completed(&mut self, outcome: Result<(), IoError>) -> (r: Result<(), IoError>)
        ensures
            r == outcome,
            final(self).conn() == old(self).conn(),
            final(self).send() == state_after_shutdown(old(self).send(), outcome),
    {
        end_shutdown(&mut self.send, outcome)
    }

    /// Gives the half up, and returns the descriptor whose send direction is to be
    /// shut down as a best effort, without waiting: the connection's unless its
    /// send direction is shut already.
    pub fn teardown(self) -> (r: Option<i32>)
        ensures
            r == match self.send() {
                SendState::Open => Some(self.conn().fd),
                SendState::Shut => None::<i32>,
            },
    {
        match begin_shutdown(self.cell.fd, self.send) {
            ShutdownStep::Submit(fd) => Some(fd),
            ShutdownStep::Done => None,
        }
    }
}

/// Whether `r` and `w` share one cell. A cell is told apart by the descriptor of
/// the connection it holds: while a connection is open its descriptor names no
/// other.
pub open spec fn same_cell(r: OwnedReadHalf, w: OwnedWriteHalf) -> bool {
    r.conn().fd == w.conn().fd
}

/// What reuniting `r` and `w` yields: the connection and send state of the stream
/// rebuilt, or `None` when the halves do not share a cell.
pub open spec fn reunited(r: OwnedReadHalf, w: OwnedWriteHalf) -> Option<(Connection, SendState)> {
    if same_cell(r, w) {
        Some((w.conn(), w.send()))
    } else {
        None
    }
}

/// Whether `r` and `w` are what splitting `s` into owned halves gives.
pub open spec fn halves_of(s: Stream, r: OwnedReadHalf, w: OwnedWriteHalf) -> bool {
    &&& r.conn() == s.conn()
    &&& w.conn() == s.conn()
    &&& w.send() == s.send()
}

impl Stream {
    /// Splits the stream into two halves that own a shared cell holding its
    /// connection; the send state goes to the write half.
    pub fn into_split(self) -> (r: (OwnedReadHalf, OwnedWriteHalf))
        ensures
            halves_of(self, r.0, r.1),
    {
        let (conn, send) = self.into_parts();
        let cell = Rc::new(conn);
        let other = share(&cell);
        (OwnedReadHalf { cell: other }, OwnedWriteHalf { cell, send })
    }
}

/// Rebuilds a stream from two owned halves when they share a cell; otherwise hands
/// both back, unchanged, in the error.
pub fn reunite(read: OwnedReadHalf, write: OwnedWriteHalf) -> (r: Result<Stream, ReuniteError>)
    ensures
        match reunited(read, write) {
            Some((conn, send)) => r matches Ok(s) && s.conn() == conn && s.send() == send,
            None => r matches Err(e) && e.0 == read && e.1 == write,
        },
{
    if read.cell.fd == write.cell.fd {
        let OwnedWriteHalf { cell, send } = write;
        // Giving the read half up first leaves the write half the cell's only owner.
        let _ = read.teardown();
        let conn = match Rc::try_unwrap(cell) {
            Ok(c) => c,
            Err(shared) => *shared,
        };
        Ok(Stream::from_parts(conn, send))
    } else {
        Err(ReuniteError(read, write))
    }
}

impl ReuniteError {
    /// What went wrong, in words.
    pub fn message(&self) -> (r: &'static str)
        ensures
            r@ == "tried to reunite halves that are not from the same socket"@,
    {
        "tried to reunite halves that are not from the same socket"
    }

    /// Hands back the two halves that could not be reunited.
    pub fn into_halves(self) -> (r: (OwnedReadHalf, OwnedWriteHalf))
        ensures
            r.0 == self.0,
            r.1 == self.1,
    {
        (self.0, self.1)
    }
}

/// Splitting a stream into owned halves and reuniting them gives back a stream with
/// the same connection, so the same local and remote addresses, and the same send
/// state.
pub proof fn lemma_reunite_after_split(s: Stream, r: OwnedReadHalf, w: OwnedWriteHalf)
    requires
        halves_of(s, r, w),
    ensures
        reunited(r, w) == Some((s.conn(), s.send())),
{
}

/// A read half of one connection and a write half of another, open at the same
/// time and so under different descriptors, cannot be reunited: the attempt hands
/// both back.
pub proof fn lemma_reunite_mismatch(
    a: Stream,
    b: Stream,
    ra: OwnedReadHalf,
    wa: OwnedWriteHalf,
    rb: OwnedReadHalf,
    wb: OwnedWriteHalf,
)
    requires
        halves_of(a, ra, wa),
        halves_of(b, rb, wb),
        a.conn().fd != b.conn().fd,
    ensures
        reunited(ra, wb) is None,
        reunited(rb, wa) is None,
{
}

} // verus!
