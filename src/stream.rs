use vstd::prelude::*;

use crate::addr::{Connection, IoError, SockAddr};
use crate::buf::{
    complete_read, complete_readv, complete_write, complete_writev, read_done, read_fits,
    readv_done, total_cap, total_len, write_done, write_fits, writev_done, Buffer, ReadCompletion,
    WriteCompletion,
};

verus! {

/// The state of a connection's send direction.
#[derive(Clone, Copy, PartialEq, Eq, Structural, Debug)]
pub enum SendState {
    Open,
    /// A half-close of the send direction has completed.
    Shut,
}

/// What a request to shut the send direction down asks of the caller.
#[derive(Clone, Copy, PartialEq, Eq, Structural, Debug)]
pub enum ShutdownStep {
    /// Submit a half-close of the send direction of this descriptor, then report
    /// its outcome.
    Submit(i32),
    /// Nothing to submit: the send direction is already shut, and the request
    /// succeeds at once.
    Done,
}

/// The step a shutdown request takes on descriptor `fd` in send state `st`.
pub open spec fn shutdown_step(fd: i32, st: SendState) -> ShutdownStep {
    match st {
        SendState::Open => ShutdownStep::Submit(fd),
        SendState::Shut => ShutdownStep::Done,
    }
}

/// The send state after a submitted half-close reported `outcome`.
pub open spec fn state_after_shutdown(st: SendState, outcome: Result<(), IoError>) -> SendState {
    match outcome {
        Ok(()) => SendState::Shut,
        Err(_) => st,
    }
}

pub(crate) fn begin_shutdown(fd: i32, st: SendState) -> (r: ShutdownStep)
    ensures
        r == shutdown_step(fd, st),
{
    match st {
        SendState::Open => ShutdownStep::Submit(fd),
        SendState::Shut => ShutdownStep::Done,
    }
}

pub(crate) fn end_shutdown(st: &mut SendState, outcome: Result<(), IoError>) -> (r: Result<
    (),
    IoError,
>)
    ensures
        *final(st) == state_after_shutdown(*old(st), outcome),
        r == outcome,
{
    if outcome.is_ok() {
        *st = SendState::Shut;
    }
    outcome
}

/// Shutting the send direction down is idempotent: once a half-close has succeeded,
/// a further request submits nothing and succeeds at once, and leaves the state as
/// it was.
pub proof fn lemma_shutdown_idempotent(fd: i32, st: SendState, outcome: Result<(), IoError>)
    requires
        outcome is Ok,
    ensures
        state_after_shutdown(st, outcome) == SendState::Shut,
        shutdown_step(fd, state_after_shutdown(st, outcome)) == ShutdownStep::Done,
{
}

/// A duplex connection handle before any split: it owns its connection and the
/// state of its send direction.
pub struct Stream {
    conn: Connection,
    send: SendState,
}

impl Stream {
    pub closed spec fn conn(&self) -> Connection {
        self.conn
    }

    pub closed spec fn send(&self) -> SendState {
        self.send
    }

    /// A stream over a freshly opened connection.
    pub fn new(conn: Connection) -> (r: Stream)
        ensures
            r.conn() == conn,
            r.send() == SendState::Open,
    {
        Stream { conn, send: SendState::Open }
    }

    pub(crate) fn from_parts(conn: Connection, send: SendState) -> (r: Stream)
        ensures
            r.conn() == conn,
            r.send() == send,
    {
        Stream { conn, send }
    }

    pub(crate) fn into_parts(self) -> (r: (Connection, SendState))
        ensures
            r == (self.conn(), self.send()),
    {
        (self.conn, self.send)
    }

    pub fn fd(&self) -> (r: i32)
        ensures
            r == self.conn().fd,
    {
        self.conn.fd
    }

    /// Returns the local address that this stream is bound to.
    pub fn local_addr(&self) -> (r: SockAddr)
        ensures
            r == self.conn().local,
    {
        self.conn.local
    }

    /// Returns the remote address that this stream is connected to.
    pub fn peer_addr(&self) -> (r: SockAddr)
        ensures
            r == self.conn().peer,
    {
        self.conn.peer
    }

    pub fn send_state(&self) -> (r: SendState)
        ensures
            r == self.send(),
    {
        self.send
    }

    /// Two views of this stream, one for each direction, that live no longer than
    /// the borrow of the stream. The read view reaches only the connection; the
    /// write view reaches the connection and the send state, and what it does to
    /// the send state is what the stream has once both views are gone.
    pub fn split(&mut self) -> (r: (ReadHalf<'_>, WriteHalf<'_>))
        ensures
            *r.0.conn == old(self).conn(),
            *r.1.conn == old(self).conn(),
            *r.1.send == old(self).send(),
            final(self).conn() == old(self).conn(),
            final(self).send() == *final(r.1.send),
    {
        let Stream { conn, send } = self;
        (ReadHalf { conn: &*conn }, WriteHalf { conn: &*conn, send })
    }
}

/// The receive side of a split stream, borrowed from it.
pub struct ReadHalf<'a> {
    pub conn: &'a Connection,
}

/// The send side of a split stream, borrowed from it.
pub struct WriteHalf<'a> {
    pub conn: &'a Connection,
    pub send: &'a mut SendState,
}

impl<'a> ReadHalf<'a> {
    /// The descriptor through which this half's operations are submitted.
    pub fn fd(&self) -> (r: i32)
        ensures
            r == self.conn.fd,
    {
        self.conn.fd
    }

    /// Returns the local address that this stream is bound to.
    pub fn local_addr(&self) -> (r: SockAddr)
        ensures
            r == self.conn.local,
    {
        self.conn.local
    }

    /// Returns the remote address that this stream is connected to.
    pub fn peer_addr(&self) -> (r: SockAddr)
        ensures
            r == self.conn.peer,
    {
        self.conn.peer
    }

    /// Completes a read into `buf` with what the completion subsystem reported.
    pub fn read(&mut self, buf: Buffer, c: ReadCompletion) -> (r: (Result<usize, IoError>, Buffer))
        requires
            read_fits(c, buf.cap()),
        ensures
            read_done(buf, c, r),
            *final(self) == *old(self),
    {
        complete_read(buf, c)
    }

    /// Completes a vectored read into `bufs` with what the completion subsystem
    /// reported.
    pub fn readv(&mut self, bufs: Vec<Buffer>, c: ReadCompletion) -> (r: (
        Result<usize, IoError>,
        Vec<Buffer>,
    ))
        requires
            read_fits(c, total_cap(bufs@)),
        ensures
            readv_done(bufs@, c, r.0, r.1@),
            *final(self) == *old(self),
    {
        complete_readv(bufs, c)
    }
}

impl<'a> WriteHalf<'a> {
    /// The descriptor through which this half's operations are submitted.
    pub fn fd(&self) -> (r: i32)
        ensures
            r == self.conn.fd,
    {
        self.conn.fd
    }

    /// Returns the local address that this stream is bound to.
    pub fn local_addr(&self) -> (r: SockAddr)
        ensures
            r == self.conn.local,
    {
        self.conn.local
    }

    /// Returns the remote address that this stream is connected to.
    pub fn peer_addr(&self) -> (r: SockAddr)
        ensures
            r == self.conn.peer,
    {
        self.conn.peer
    }

    /// Completes a write of `buf` with what the completion subsystem reported.
    pub fn write(&mut self, buf: Buffer, c: WriteCompletion) -> (r: (Result<usize, IoError>, Buffer))
        requires
            write_fits(c, buf.contents().len()),
        ensures
            write_done(buf, c, r),
            *final(self).conn == *old(self).conn,
            *final(self).send == *old(self).send,
    {
        complete_write(buf, c)
    }

    /// Completes a vectored write of `bufs` with what the completion subsystem
    /// reported.
    pub fn writev(&mut self, bufs: Vec<Buffer>, c: WriteCompletion) -> (r: (
        Result<usize, IoError>,
        Vec<Buffer>,
    ))
        requires
            write_fits(c, total_len(bufs@)),
        ensures
            writev_done(bufs@, c, r.0, r.1@),
            *final(self).conn == *old(self).conn,
            *final(self).send == *old(self).send,
    {
        complete_writev(bufs, c)
    }

    /// Nothing is buffered on this side of the connection, so there is nothing to
    /// flush.
    pub fn flush(&mut self) -> (r: Result<(), IoError>)
        ensures
            r == Ok::<(), IoError>(()),
            *final(self).conn == *old(self).conn,
            *final(self).send == *old(self).send,
    {
        Ok(())
    }

    /// Asks to shut the send direction down.
    pub fn shutdown(&mut self) -> (r: ShutdownStep)
        ensures
            r == shutdown_step(old(self).conn.fd, *old(self).send),
            *final(self).conn == *old(self).conn,
            *final(self).send == *old(self).send,
    {
        begin_shutdown(self.conn.fd, *self.send)
    }

    /// Takes the outcome of a submitted half-close and passes it on.
    pub fn shutdown_completed(&mut self, outcome: Result<(), IoError>) -> (r: Result<(), IoError>)
        ensures
            r == outcome,
            *final(self).conn == *old(self).conn,
            *final(self).send == state_after_shutdown(*old(self).send, outcome),
    {
        end_shutdown(self.send, outcome)
    }
}

} // verus!
