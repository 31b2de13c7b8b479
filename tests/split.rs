use tcp_split::addr::{Connection, IoError, SockAddr};
use tcp_split::buf::{Buffer, ReadCompletion, WriteCompletion};
use tcp_split::split::{reunite, OwnedReadHalf, OwnedWriteHalf};
use tcp_split::stream::{SendState, ShutdownStep, Stream};

fn conn_a() -> Connection {
    Connection::new(
        3,
        SockAddr::V4 { ip: 0x7f00_0001, port: 40000 },
        SockAddr::V4 { ip: 0x7f00_0001, port: 8080 },
    )
}

fn conn_b() -> Connection {
    Connection::new(
        4,
        SockAddr::V6 { ip: 1, port: 40001 },
        SockAddr::V6 { ip: 1, port: 9090 },
    )
}

#[test]
fn split_views_share_addresses() {
    let mut s = Stream::new(conn_a());
    let local = s.local_addr();
    let peer = s.peer_addr();
    {
        let (r, w) = s.split();
        assert_eq!(r.local_addr(), local);
        assert_eq!(w.local_addr(), local);
        assert_eq!(r.peer_addr(), peer);
        assert_eq!(w.peer_addr(), peer);
    }
    // A second split of the same stream is allowed.
    let (r, w) = s.split();
    assert_eq!(r.local_addr(), w.local_addr());
}

#[test]
fn borrowed_write_half_shutdown_reaches_stream() {
    let mut s = Stream::new(conn_a());
    {
        let (_r, mut w) = s.split();
        assert_eq!(w.shutdown(), ShutdownStep::Submit(3));
        assert_eq!(w.shutdown_completed(Ok(())), Ok(()));
        assert_eq!(w.shutdown(), ShutdownStep::Done);
    }
    assert_eq!(s.send_state(), SendState::Shut);
}

#[test]
fn into_split_then_reunite_restores_addresses() {
    let s = Stream::new(conn_a());
    let local = s.local_addr();
    let peer = s.peer_addr();
    let (r, w) = s.into_split();
    assert_eq!(r.local_addr(), local);
    assert_eq!(w.peer_addr(), peer);
    let back = match reunite(r, w) {
        Ok(s) => s,
        Err(_) => panic!("halves of one stream must reunite"),
    };
    assert_eq!(back.local_addr(), local);
    assert_eq!(back.peer_addr(), peer);
    assert_eq!(back.fd(), 3);
    assert_eq!(back.send_state(), SendState::Open);
}

#[test]
fn reunite_keeps_send_state() {
    let (r, mut w) = Stream::new(conn_a()).into_split();
    assert_eq!(w.shutdown(), ShutdownStep::Submit(3));
    assert_eq!(w.shutdown_completed(Ok(())), Ok(()));
    let back = match reunite(r, w) {
        Ok(s) => s,
        Err(_) => panic!("halves of one stream must reunite"),
    };
    assert_eq!(back.send_state(), SendState::Shut);
}

fn check_halves(r: &OwnedReadHalf, w: &OwnedWriteHalf, rc: Connection, wc: Connection) {
    assert_eq!(r.fd(), rc.fd);
    assert_eq!(r.local_addr(), rc.local);
    assert_eq!(r.peer_addr(), rc.peer);
    assert_eq!(w.fd(), wc.fd);
    assert_eq!(w.local_addr(), wc.local);
    assert_eq!(w.peer_addr(), wc.peer);
}

#[test]
fn reunite_across_connections_returns_both_halves() {
    let (ra, wa) = Stream::new(conn_a()).into_split();
    let (rb, mut wb) = Stream::new(conn_b()).into_split();
    assert_eq!(wb.shutdown_completed(Ok(())), Ok(()));
    let err = match reunite(ra, wb) {
        Ok(_) => panic!("halves of different streams must not reunite"),
        Err(e) => e,
    };
    assert_eq!(
        err.message(),
        "tried to reunite halves that are not from the same socket"
    );
    check_halves(&err.0, &err.1, conn_a(), conn_b());
    let (ra, wb) = err.into_halves();
    assert_eq!(wb.send_state(), SendState::Shut);
    // The halves handed back still pair up with their own partners.
    assert!(reunite(ra, wa).is_ok());
    assert!(reunite(rb, wb).is_ok());
}

#[test]
fn read_returns_same_buffer_with_received_bytes() {
    let (mut r, _w) = Stream::new(conn_a()).into_split();
    let buf = Buffer::with_capacity(8);
    let (res, buf) = r.read(buf, ReadCompletion::Received(b"abc".to_vec()));
    assert_eq!(res, Ok(3));
    assert_eq!(buf.as_slice(), b"abc");
    assert_eq!(buf.capacity(), 8);
    // A second read replaces what the buffer held.
    let (res, buf) = r.read(buf, ReadCompletion::Received(b"wxyz1234".to_vec()));
    assert_eq!(res, Ok(8));
    assert_eq!(buf.into_vec(), b"wxyz1234".to_vec());
}

#[test]
fn failed_read_leaves_buffer_untouched() {
    let (mut r, _w) = Stream::new(conn_a()).into_split();
    let buf = Buffer::from_vec(b"keep".to_vec());
    let (res, buf) = r.read(buf, ReadCompletion::Failed(IoError { code: 104 }));
    assert_eq!(res, Err(IoError { code: 104 }));
    assert_eq!(buf.as_slice(), b"keep");
    assert_eq!(buf.capacity(), 4);
}

#[test]
fn write_leaves_buffer_unchanged() {
    let (_r, mut w) = Stream::new(conn_a()).into_split();
    let buf = Buffer::from_vec(b"hello".to_vec());
    let (res, buf) = w.write(buf, WriteCompletion::Sent(5));
    assert_eq!(res, Ok(5));
    assert_eq!(buf.as_slice(), b"hello");
    let (res, buf) = w.write(buf, WriteCompletion::Failed(IoError { code: 32 }));
    assert_eq!(res, Err(IoError { code: 32 }));
    assert_eq!(buf.as_slice(), b"hello");
}

#[test]
fn partial_write_then_remaining_bytes() {
    let (_r, mut w) = Stream::new(conn_a()).into_split();
    let payload = Buffer::from_vec(b"0123456789".to_vec());
    let (res, payload) = w.write(payload, WriteCompletion::Sent(6));
    assert_eq!(res, Ok(6));
    let rest = payload.unsent(6);
    assert_eq!(rest.as_slice(), b"6789");
    assert_eq!(rest.capacity(), 4);
    let (res, rest) = w.write(rest, WriteCompletion::Sent(4));
    assert_eq!(res, Ok(4));
    assert_eq!(rest.len(), 4);
    assert_eq!(payload.unsent(10).len(), 0);
}

#[test]
fn shutdown_twice_is_idempotent() {
    let (_r, mut w) = Stream::new(conn_a()).into_split();
    assert_eq!(w.shutdown(), ShutdownStep::Submit(3));
    assert_eq!(w.shutdown_completed(Ok(())), Ok(()));
    assert_eq!(w.send_state(), SendState::Shut);
    assert_eq!(w.shutdown(), ShutdownStep::Done);
    assert_eq!(w.send_state(), SendState::Shut);
}

#[test]
fn failed_shutdown_keeps_direction_open() {
    let (_r, mut w) = Stream::new(conn_a()).into_split();
    assert_eq!(w.shutdown(), ShutdownStep::Submit(3));
    assert_eq!(
        w.shutdown_completed(Err(IoError { code: 107 })),
        Err(IoError { code: 107 })
    );
    assert_eq!(w.send_state(), SendState::Open);
    assert_eq!(w.shutdown(), ShutdownStep::Submit(3));
}

#[test]
fn flush_succeeds_at_once() {
    let (_r, mut w) = Stream::new(conn_a()).into_split();
    assert_eq!(w.flush(), Ok(()));
    let mut s = Stream::new(conn_b());
    let (_r, mut w) = s.split();
    assert_eq!(w.flush(), Ok(()));
}

#[test]
fn only_write_half_shuts_down_on_teardown() {
    let (r, w) = Stream::new(conn_a()).into_split();
    assert_eq!(r.teardown(), None);
    assert_eq!(w.teardown(), Some(3));
    let (r, mut w) = Stream::new(conn_b()).into_split();
    assert_eq!(w.shutdown_completed(Ok(())), Ok(()));
    assert_eq!(r.teardown(), None);
    assert_eq!(w.teardown(), None);
}

#[test]
fn loopback_ping() {
    let (mut r, mut w) = Stream::new(conn_a()).into_split();
    let out = Buffer::from_vec(b"PING".to_vec());
    let (res, _out) = w.write(out, WriteCompletion::Sent(4));
    assert_eq!(res, Ok(4));
    let buf4 = Buffer::with_capacity(4);
    let (res, buf4) = r.read(buf4, ReadCompletion::Received(b"PING".to_vec()));
    assert_eq!(res, Ok(4));
    assert_eq!(buf4.as_slice(), b"PING");
}

#[test]
fn readv_fills_buffers_in_order() {
    let (mut r, _w) = Stream::new(conn_a()).into_split();
    let bufs = vec![
        Buffer::with_capacity(3),
        Buffer::with_capacity(2),
        Buffer::with_capacity(4),
        Buffer::with_capacity(1),
    ];
    let (res, bufs) = r.readv(bufs, ReadCompletion::Received(b"abcdefg".to_vec()));
    assert_eq!(res, Ok(7));
    assert_eq!(bufs.len(), 4);
    assert_eq!(bufs[0].as_slice(), b"abc");
    assert_eq!(bufs[1].as_slice(), b"de");
    assert_eq!(bufs[2].as_slice(), b"fg");
    assert_eq!(bufs[3].as_slice(), b"");
    assert_eq!(bufs[2].capacity(), 4);
}

#[test]
fn readv_on_borrowed_half_and_failure() {
    let mut s = Stream::new(conn_a());
    let (mut r, _w) = s.split();
    let bufs = vec![Buffer::from_vec(b"xy".to_vec()), Buffer::with_capacity(2)];
    let (res, bufs) = r.readv(bufs, ReadCompletion::Failed(IoError { code: 11 }));
    assert_eq!(res, Err(IoError { code: 11 }));
    assert_eq!(bufs[0].as_slice(), b"xy");
    let (res, bufs) = r.readv(bufs, ReadCompletion::Received(b"abc".to_vec()));
    assert_eq!(res, Ok(3));
    assert_eq!(bufs[0].as_slice(), b"ab");
    assert_eq!(bufs[1].as_slice(), b"c");
}

#[test]
fn writev_returns_buffers_unchanged() {
    let (_r, mut w) = Stream::new(conn_a()).into_split();
    let bufs = vec![Buffer::from_vec(b"ab".to_vec()), Buffer::from_vec(b"cde".to_vec())];
    let (res, bufs) = w.writev(bufs, WriteCompletion::Sent(3));
    assert_eq!(res, Ok(3));
    assert_eq!(bufs[0].as_slice(), b"ab");
    assert_eq!(bufs[1].as_slice(), b"cde");
    let mut s = Stream::new(conn_b());
    let (_r, mut w) = s.split();
    let (res, bufs) = w.writev(bufs, WriteCompletion::Failed(IoError { code: 32 }));
    assert_eq!(res, Err(IoError { code: 32 }));
    assert_eq!(bufs.len(), 2);
    let (res, _b) = w.write(Buffer::from_vec(b"z".to_vec()), WriteCompletion::Sent(1));
    assert_eq!(res, Ok(1));
}

#[test]
fn addresses_and_ports() {
    let s = Stream::new(conn_b());
    assert_eq!(s.local_addr().port(), 40001);
    assert_eq!(s.peer_addr().port(), 9090);
    assert_eq!(conn_a().peer.port(), 8080);
}
