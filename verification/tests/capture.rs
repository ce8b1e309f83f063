//! Capture translation, observed through the stream surface.

use fixture_io::BlockDirection;
use fixture_io::CaptureBlock;
use fixture_io::CaptureError;
use fixture_io::FixtureIo;
use fixture_io::IoError;
use futures::Async;
use futures::Future;
use futures::future::poll_fn;

fn block(direction: BlockDirection, elapsed_ms: u64, data: Vec<u8>) -> CaptureBlock {
    CaptureBlock { direction, elapsed_ms, data }
}

#[test]
fn capture_translates_to_write_then_wait_then_read() {
    let blocks = vec![
        block(BlockDirection::PeerToUs, 0, vec![1, 2, 3]),
        block(BlockDirection::UsToPeer, 50, vec![9, 8, 7, 6]),
    ];
    let mut fx = FixtureIo::load(blocks).unwrap();

    // The script must be write(3 bytes), wait(50ms), read(4 bytes).
    let mut buf = vec![0u8; 8];
    let mut wrote = false;
    let n = poll_fn(|| -> futures::Poll<usize, ()> {
        if !wrote {
            assert_eq!(fx.write(&vec![1, 2, 3]), Ok(3));
            wrote = true;
        }
        match fx.read(&mut buf) {
            Ok(n) => Ok(Async::Ready(n)),
            Err(IoError::WouldBlock) => Ok(Async::NotReady),
            Err(_) => Err(()),
        }
    })
        .wait()
        .unwrap();
    assert_eq!(n, 4);
    assert_eq!(&buf[..4], &[9, 8, 7, 6]);
    assert_eq!(fx.write(&vec![0]), Err(IoError::BrokenPipe));
}

#[test]
fn capture_write_blocks_do_not_wait() {
    let blocks = vec![block(BlockDirection::PeerToUs, 40, vec![5])];
    let mut fx = FixtureIo::load(blocks).unwrap();
    assert_eq!(fx.write(&vec![5]), Ok(1));
}

#[test]
fn out_of_order_capture_fails_to_construct() {
    let blocks = vec![
        block(BlockDirection::UsToPeer, 50, vec![1]),
        block(BlockDirection::UsToPeer, 10, vec![2]),
    ];
    match FixtureIo::load(blocks) {
        Err(e) => assert_eq!(e, CaptureError::OutOfOrderTimestamp),
        Ok(_) => panic!("a capture with backwards timestamps must be rejected"),
    }
}

#[test]
fn mismatched_write_against_capture_is_fatal() {
    let blocks = vec![block(BlockDirection::PeerToUs, 0, vec![1, 2, 3])];
    let mut fx = FixtureIo::load(blocks).unwrap();
    assert_eq!(fx.write(&vec![1, 9, 3]), Err(IoError::ScriptMismatch));
}
