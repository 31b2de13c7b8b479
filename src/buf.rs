use vstd::prelude::*;

use crate::addr::IoError;

verus! {

/// A byte buffer whose ownership travels with an I/O operation. It holds its
/// initialised bytes and the number of bytes an operation may place in it.
pub struct Buffer {
    data: Vec<u8>,
    cap: usize,
}

/// The smaller of `x` and `n`.
pub open spec fn clamp(x: int, n: int) -> int {
    if x < n {
        x
    } else {
        n
    }
}

impl Buffer {
    #[verifier::type_invariant]
    spec fn fits(&self) -> bool {
        self.data.len() <= self.cap
    }

    /// The initialised bytes.
    pub closed spec fn contents(&self) -> Seq<u8> {
        self.data@
    }

    /// How many bytes a read may place in the buffer.
    pub closed spec fn cap(&self) -> nat {
        self.cap as nat
    }

    /// An empty buffer that a read may fill with up to `cap` bytes.
    pub fn with_capacity(cap: usize) -> (r: Buffer)
        ensures
            r.contents() == Seq::<u8>::empty(),
            r.cap() == cap,
    {
        Buffer { data: Vec::new(), cap }
    }

    /// A buffer holding `v`, filled to its capacity.
    pub fn from_vec(v: Vec<u8>) -> (r: Buffer)
        ensures
            r.contents() == v@,
            r.cap() == v.len(),
    {
        let cap = v.len();
        Buffer { data: v, cap }
    }

    pub fn len(&self) -> (r: usize)
        ensures
            r == self.contents().len(),
    {
        self.data.len()
    }

    pub fn capacity(&self) -> (r: usize)
        ensures
            r == self.cap(),
    {
        self.cap
    }

    pub fn as_slice(&self) -> (r: &[u8])
        ensures
            r@ == self.contents(),
    {
        self.data.as_slice()
    }

    pub fn into_vec(self) -> (r: Vec<u8>)
        ensures
            r@ == self.contents(),
    {
        self.data
    }

    /// The bytes from `n` on, as a buffer of their own: what is left to send after a
    /// write that transferred `n` bytes.
    pub fn unsent(&self, n: usize) -> (r: Buffer)
        requires
            n <= self.contents().len(),
        ensures
            r.contents() == self.contents().subrange(n as int, self.contents().len() as int),
            r.cap() == self.contents().len() - n,
            self.contents().subrange(0, n as int) + r.contents() == self.contents(),
    {
        let len = self.data.len();
        let mut data: Vec<u8> = Vec::new();
        let mut i: usize = n;
        while i < len
            invariant
                n <= i <= len,
                len == self.data@.len(),
                data@ == self.data@.subrange(n as int, i as int),
            decreases len - i,
        {
            data.push(self.data[i]);
            i = i + 1;
        }
        proof {
            assert(self.data@.subrange(0, n as int) + data@ =~= self.data@);
        }
        Buffer { data, cap: len - n }
    }

    /// The same buffer after an operation placed `received` at its start: the
    /// received bytes are now its contents, and its capacity is unchanged.
    fn filled(self, received: &[u8]) -> (r: Buffer)
        requires
            received@.len() <= self.cap(),
        ensures
            r.contents() == received@,
            r.cap() == self.cap(),
    {
        let Buffer { data, cap } = self;
        let mut data = data;
        data.clear();
        let mut i: usize = 0;
        while i < received.len()
            invariant
                i <= received@.len() <= cap,
                data@ == received@.subrange(0, i as int),
            decreases received@.len() - i,
        {
            data.push(received[i]);
            i = i + 1;
        }
        proof {
            assert(received@.subrange(0, received@.len() as int) =~= received@);
        }
        Buffer { data, cap }
    }
}

/// What the completion subsystem reports for a read.
pub enum ReadCompletion {
    /// The bytes placed at the start of the buffer.
    Received(Vec<u8>),
    Failed(IoError),
}

/// What the completion subsystem reports for a write.
pub enum WriteCompletion {
    /// How many bytes of the buffer were transferred.
    Sent(usize),
    Failed(IoError),
}

/// What a read may be reported to have received into buffers of total capacity `cap`.
pub open spec fn read_fits(c: ReadCompletion, cap: nat) -> bool {
    match c {
        ReadCompletion::Received(d) => d@.len() <= cap,
        ReadCompletion::Failed(_) => true,
    }
}

/// What a write of `len` bytes may be reported to have transferred.
pub open spec fn write_fits(c: WriteCompletion, len: nat) -> bool {
    match c {
        WriteCompletion::Sent(n) => n <= len,
        WriteCompletion::Failed(_) => true,
    }
}

/// The sum of the capacities of `bufs`.
pub open spec fn total_cap(bufs: Seq<Buffer>) -> nat
    decreases bufs.len(),
{
    if bufs.len() == 0 {
        0
    } else {
        total_cap(bufs.drop_last()) + bufs.last().cap()
    }
}

/// The sum of the lengths of `bufs`.
pub open spec fn total_len(bufs: Seq<Buffer>) -> nat
    decreases bufs.len(),
{
    if bufs.len() == 0 {
        0
    } else {
        total_len(bufs.drop_last()) + bufs.last().contents().len()
    }
}

/// The part of `d` that a vectored read places in the `i`-th of `bufs`: buffers are
/// filled in order, each up to its capacity.
pub open spec fn scattered(d: Seq<u8>, bufs: Seq<Buffer>, i: int) -> Seq<u8> {
    let start = total_cap(bufs.take(i)) as int;
    d.subrange(clamp(start, d.len() as int), clamp(start + bufs[i].cap(), d.len() as int))
}

/// What a read on `buf` hands back, `r`, given the completion `c`. On success the
/// result is the number of bytes received and the buffer holds exactly those bytes,
/// with its capacity unchanged; on failure the error is passed on and the buffer is
/// untouched.
pub open spec fn read_done(buf: Buffer, c: ReadCompletion, r: (Result<usize, IoError>, Buffer)) -> bool {
    match c {
        ReadCompletion::Received(d) => {
            &&& r.0 == Ok::<usize, IoError>(d@.len() as usize)
            &&& r.1.contents() == d@
            &&& r.1.cap() == buf.cap()
        },
        ReadCompletion::Failed(e) => r.0 == Err::<usize, IoError>(e) && r.1 == buf,
    }
}

/// What a write of `buf` hands back, `r`, given the completion `c`: the buffer
/// unchanged, and the number of bytes transferred or the failure reported.
pub open spec fn write_done(buf: Buffer, c: WriteCompletion, r: (Result<usize, IoError>, Buffer)) -> bool {
    &&& r.1 == buf
    &&& match c {
        WriteCompletion::Sent(n) => r.0 == Ok::<usize, IoError>(n),
        WriteCompletion::Failed(e) => r.0 == Err::<usize, IoError>(e),
    }
}

/// What a vectored read on `bufs` hands back, `res` and `out`, given the completion
/// `c`. On success the result is the number of bytes received, and the buffers hold
/// them in order, each filled up to its capacity before the next gets any; every
/// capacity is unchanged. On failure the error is passed on and the buffers are
/// untouched.
pub open spec fn readv_done(
    bufs: Seq<Buffer>,
    c: ReadCompletion,
    res: Result<usize, IoError>,
    out: Seq<Buffer>,
) -> bool {
    match c {
        ReadCompletion::Received(d) => {
            &&& res == Ok::<usize, IoError>(d@.len() as usize)
            &&& out.len() == bufs.len()
            &&& forall|i: int| 0 <= i < bufs.len() ==> #[trigger] out[i].contents() == scattered(d@, bufs, i)
            &&& forall|i: int| 0 <= i < bufs.len() ==> #[trigger] out[i].cap() == bufs[i].cap()
        },
        ReadCompletion::Failed(e) => res == Err::<usize, IoError>(e) && out == bufs,
    }
}

/// What a vectored write of `bufs` hands back, `res` and `out`, given the completion
/// `c`: the buffers unchanged and in order, and the number of bytes transferred or
/// the failure reported.
pub open spec fn writev_done(
    bufs: Seq<Buffer>,
    c: WriteCompletion,
    res: Result<usize, IoError>,
    out: Seq<Buffer>,
) -> bool {
    &&& out == bufs
    &&& match c {
        WriteCompletion::Sent(n) => res == Ok::<usize, IoError>(n),
        WriteCompletion::Failed(e) => res == Err::<usize, IoError>(e),
    }
}

/// Hands a read's buffer back together with its result.
pub fn complete_read(buf: Buffer, c: ReadCompletion) -> (r: (Result<usize, IoError>, Buffer))
    requires
        read_fits(c, buf.cap()),
    ensures
        read_done(buf, c, r),
{
    match c {
        ReadCompletion::Received(d) => {
            let n = d.len();
            let b = buf.filled(d.as_slice());
            (Ok(n), b)
        },
        ReadCompletion::Failed(e) => (Err(e), buf),
    }
}

/// Hands a write's buffer back together with its result.
pub fn complete_write(buf: Buffer, c: WriteCompletion) -> (r: (Result<usize, IoError>, Buffer))
    requires
        write_fits(c, buf.contents().len()),
    ensures
        write_done(buf, c, r),
{
    match c {
        WriteCompletion::Sent(n) => (Ok(n), buf),
        WriteCompletion::Failed(e) => (Err(e), buf),
    }
}

/// Hands a vectored write's buffers back together with its result.
pub fn complete_writev(bufs: Vec<Buffer>, c: WriteCompletion) -> (r: (
    Result<usize, IoError>,
    Vec<Buffer>,
))
    requires
        write_fits(c, total_len(bufs@)),
    ensures
        writev_done(bufs@, c, r.0, r.1@),
{
    match c {
        WriteCompletion::Sent(n) => (Ok(n), bufs),
        WriteCompletion::Failed(e) => (Err(e), bufs),
    }
}

proof fn lemma_total_cap_step(bufs: Seq<Buffer>, i: int)
    requires
        0 <= i < bufs.len(),
    ensures
        total_cap(bufs.take(i + 1)) == total_cap(bufs.take(i)) + bufs[i].cap(),
{
    assert(bufs.take(i + 1).drop_last() =~= bufs.take(i));
}

/// Hands a vectored read's buffers back together with its result.
pub fn complete_readv(bufs: Vec<Buffer>, c: ReadCompletion) -> (r: (
    Result<usize, IoError>,
    Vec<Buffer>,
))
    requires
        read_fits(c, total_cap(bufs@)),
    ensures
        readv_done(bufs@, c, r.0, r.1@),
{
    match c {
        ReadCompletion::Received(d) => {
            let ghost orig = bufs@;
            let count = bufs.len();
            let n = d.len();
            proof {
                assert(orig.skip(0) =~= orig);
            }
            let mut rest = bufs;
            let mut out: Vec<Buffer> = Vec::new();
            let mut pos: usize = 0;
            let mut i: usize = 0;
            while rest.len() > 0
                invariant
                    i + rest@.len() == orig.len() == count,
                    rest@ == orig.skip(i as int),
                    out@.len() == i,
                    n == d@.len(),
                    pos == clamp(total_cap(orig.take(i as int)) as int, n as int),
                    forall|j: int| 0 <= j < i ==> #[trigger] out@[j].contents() == scattered(d@, orig, j),
                    forall|j: int| 0 <= j < i ==> #[trigger] out@[j].cap() == orig[j].cap(),
                decreases rest@.len(),
            {
                let b = rest.remove(0);
                proof {
                    assert(b == orig[i as int]);
                    lemma_total_cap_step(orig, i as int);
                }
                let room = b.capacity();
                let k: usize = if room < n - pos {
                    room
                } else {
                    n - pos
                };
                let piece = vstd::slice::slice_subrange(d.as_slice(), pos, pos + k);
                let filled = b.filled(piece);
                out.push(filled);
                proof {
                    assert(piece@ =~= scattered(d@, orig, i as int));
                    assert(rest@ =~= orig.skip(i + 1));
                }
                pos = pos + k;
                i = i + 1;
            }
            (Ok(n), out)
        },
        ReadCompletion::Failed(e) => (Err(e), bufs),
    }
}

} // verus!
