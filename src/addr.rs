use vstd::prelude::*;

verus! {

/// A socket address: an IPv4 or IPv6 host (in network order, as one integer) and a port.
#[derive(Clone, Copy, PartialEq, Eq, Structural, Debug)]
pub enum SockAddr {
    V4 { ip: u32, port: u16 },
    V6 { ip: u128, port: u16 },
}

impl SockAddr {
    pub fn port(&self) -> (r: u16)
        ensures
            r == match *self {
                SockAddr::V4 { port, .. } => port,
                SockAddr::V6 { port, .. } => port,
            },
    {
        match *self {
            SockAddr::V4 { port, .. } => port,
            SockAddr::V6 { port, .. } => port,
        }
    }
}

/// A failure reported by the completion subsystem for one operation, carried verbatim
/// to the caller (`code` is the operating system's error number).
#[derive(Clone, Copy, PartialEq, Eq, Structural, Debug)]
pub struct IoError {
    pub code: i32,
}

/// One socket resource: its descriptor and the addresses cached when it was opened.
#[derive(Clone, Copy, PartialEq, Eq, Structural, Debug)]
pub struct Connection {
    pub fd: i32,
    pub local: SockAddr,
    pub peer: SockAddr,
}

impl Connection {
    pub fn new(fd: i32, local: SockAddr, peer: SockAddr) -> (r: Connection)
        ensures
            r == (Connection { fd, local, peer }),
    {
        Connection { fd, local, peer }
    }
}

} // verus!
