//! The socket adapter's decision core against a real non-blocking datagram
//! socket: what a genuine "not ready" outcome makes the verified decision
//! step do.

use std::io::ErrorKind;

use mio::net::UdpSocket;

use mioco::sched::Direction;
use mioco::udp::{io_step, IoAction, TryIo};

#[test]
fn try_read_with_no_pending_datagram_is_not_ready_and_suspends() {
    let socket = UdpSocket::bind("127.0.0.1:0".parse().unwrap()).unwrap();
    let mut buf = [0u8; 64];
    // Nothing was sent: the non-blocking attempt reports "not ready", and
    // the decision on it is to suspend for readability, never to return.
    let outcome = match socket.recv_from(&mut buf) {
        Ok(r) => TryIo::Done(r),
        Err(e) if e.kind() == ErrorKind::WouldBlock => TryIo::NotReady,
        Err(e) => TryIo::Fault(e),
    };
    assert!(matches!(outcome, TryIo::NotReady));
    let action = io_step(outcome, Direction::Readable);
    assert!(matches!(action, IoAction::Suspend(Direction::Readable)));
}

