//! End-to-end scenarios driven through the public stream surface.

use fixture_io::FixtureIo;
use fixture_io::IoError;
use futures::Async;
use futures::Future;
use futures::future::lazy;
use futures::future::poll_fn;

#[test]
fn empty_read_is_immediate_eof() {
    let mut fx = FixtureIo::empty();
    let mut buf = vec![0u8; 10];
    assert_eq!(fx.read(&mut buf), Ok(0));
}

#[test]
fn simple_read_returns_payload_then_eof() {
    let mut fx = FixtureIo::empty().then_read(b"hello".to_vec());
    let mut buf = vec![0u8; 10];
    assert_eq!(fx.read(&mut buf), Ok(5));
    assert_eq!(&buf[..5], b"hello");
    assert_eq!(fx.read(&mut buf), Ok(0));
}

#[test]
fn reads_reproduce_payloads_in_declared_order() {
    let mut fx = FixtureIo::empty().then_read(vec![1, 2, 3]).then_read(vec![4, 5]);
    let mut buf = vec![0u8; 2];
    assert_eq!(fx.read(&mut buf), Ok(2));
    assert_eq!(buf, vec![1, 2]);
    assert_eq!(fx.read(&mut buf), Ok(1));
    assert_eq!(buf, vec![3, 2]);
    assert_eq!(fx.read(&mut buf), Ok(2));
    assert_eq!(buf, vec![4, 5]);
    assert_eq!(fx.read(&mut buf), Ok(0));
}

#[test]
fn simple_write_in_two_parts_then_broken_pipe() {
    let mut fx = FixtureIo::empty().then_write(b"ping".to_vec());
    assert_eq!(fx.write(&b"pin".to_vec()), Ok(3));
    assert_eq!(fx.write(&b"g".to_vec()), Ok(1));
    assert_eq!(fx.write(&b"x".to_vec()), Err(IoError::BrokenPipe));
}

#[test]
fn mismatched_write_is_fatal_not_partial() {
    let mut fx = FixtureIo::empty().then_write(b"ping".to_vec());
    assert_eq!(fx.write(&b"pong".to_vec()), Err(IoError::ScriptMismatch));
}

#[test]
fn longer_write_matches_only_expected_prefix() {
    let mut fx = FixtureIo::empty().then_write(b"ab".to_vec());
    assert_eq!(fx.write(&b"abcd".to_vec()), Ok(2));
    assert_eq!(fx.write(&b"cd".to_vec()), Err(IoError::BrokenPipe));
}

#[test]
fn write_before_script_expects_it_would_block() {
    let mut fx = FixtureIo::empty().then_read(b"hi".to_vec()).then_write(b"ok".to_vec());
    assert_eq!(fx.write(&b"ok".to_vec()), Err(IoError::WouldBlock));
    let mut buf = vec![0u8; 2];
    assert_eq!(fx.read(&mut buf), Ok(2));
    assert_eq!(fx.write(&b"ok".to_vec()), Ok(2));
}

#[test]
fn read_blocks_while_script_expects_write() {
    lazy(|| -> Result<(), ()> {
        let mut fx = FixtureIo::empty().then_write(b"ping".to_vec()).then_read(b"ok".to_vec());
        let mut buf = vec![0u8; 4];
        assert_eq!(fx.read(&mut buf), Err(IoError::WouldBlock));
        assert_eq!(fx.write(&b"ping".to_vec()), Ok(4));
        assert_eq!(fx.read(&mut buf), Ok(2));
        assert_eq!(&buf[..2], b"ok");
        Ok(())
    })
        .wait()
        .unwrap();
}

#[test]
fn wait_gates_read_until_timer_fires() {
    let mut fx = FixtureIo::empty().then_wait(100).then_read(b"x".to_vec());
    let mut buf = vec![0u8; 4];
    let mut blocked_first = false;
    let mut polls: u32 = 0;
    let n = poll_fn(|| -> futures::Poll<usize, ()> {
        polls += 1;
        match fx.read(&mut buf) {
            Ok(n) => Ok(Async::Ready(n)),
            Err(IoError::WouldBlock) => {
                if polls == 1 {
                    blocked_first = true;
                }
                Ok(Async::NotReady)
            }
            Err(_) => Err(()),
        }
    })
        .wait()
        .unwrap();
    assert!(blocked_first);
    assert_eq!(n, 1);
    assert_eq!(buf[0], b'x');
}

#[test]
fn zero_duration_wait_never_stalls() {
    let mut fx = FixtureIo::empty().then_wait(0).then_read(b"x".to_vec());
    let mut buf = vec![0u8; 1];
    let n = poll_fn(|| -> futures::Poll<usize, ()> {
        match fx.read(&mut buf) {
            Ok(n) => Ok(Async::Ready(n)),
            Err(IoError::WouldBlock) => Ok(Async::NotReady),
            Err(_) => Err(()),
        }
    })
        .wait()
        .unwrap();
    assert_eq!(n, 1);
    assert_eq!(buf[0], b'x');
}

#[test]
fn wait_beyond_timer_maximum_is_not_finished_and_not_fatal() {
    lazy(|| -> Result<(), ()> {
        // Far beyond the default timer's maximum timeout: the timer cannot
        // schedule it yet, and a read must see would-block, not an abort.
        let mut fx = FixtureIo::empty().then_wait(5_000_000).then_read(b"x".to_vec());
        let mut buf = vec![0u8; 1];
        assert_eq!(fx.read(&mut buf), Err(IoError::WouldBlock));
        assert_eq!(fx.read(&mut buf), Err(IoError::WouldBlock));
        Ok(())
    })
        .wait()
        .unwrap();
}

#[test]
fn flush_is_a_noop() {
    let mut fx = FixtureIo::empty().then_write(b"a".to_vec());
    assert_eq!(fx.flush(), Ok(()));
    assert_eq!(fx.write(&b"a".to_vec()), Ok(1));
}

#[test]
fn disposal_signal_fires_on_drop() {
    let mut fx = FixtureIo::empty();
    let rx = fx.receiver();
    drop(fx);
    assert_eq!(rx.recv(), Ok(()));
}
