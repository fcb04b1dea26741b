//! Scenario tests for the reopen discipline itself: coalescing of requests,
//! the scoped lock, and the behaviour of a proxy across instance swaps.

use std::io::{Error, ErrorKind};
use std::sync::atomic::{AtomicUsize, Ordering};
use std::sync::{Arc, Mutex};

use reopen::{Handle, OpError, ReadResource, Reopen, WriteResource};

struct Fake;

impl ReadResource<Error> for Fake {
    fn read(&mut self, _want: usize) -> Result<Vec<u8>, Error> {
        Ok(Vec::new())
    }
}

/// Any number of `reopen()` calls between two operations coalesce into
/// exactly one swap at the next operation, and none at the one after.
#[test]
fn requests_coalesce_to_one_swap() {
    let opened = Arc::new(AtomicUsize::new(0));
    let opened_cp = Arc::clone(&opened);
    let mut proxy = Reopen::new(move || {
        opened_cp.fetch_add(1, Ordering::Relaxed);
        Ok(Fake)
    })
    .unwrap();
    let handle = proxy.handle();
    assert_eq!(1, opened.load(Ordering::Relaxed));
    proxy.read(1).unwrap();
    assert_eq!(1, opened.load(Ordering::Relaxed));
    handle.reopen();
    handle.reopen();
    handle.reopen();
    proxy.read(1).unwrap();
    assert_eq!(2, opened.load(Ordering::Relaxed));
    proxy.read(1).unwrap();
    assert_eq!(2, opened.load(Ordering::Relaxed));
}

type History = Arc<Mutex<Vec<Vec<u8>>>>;

/// Each constructed instance appends its own entry to the history and all
/// its bytes land there: history[i] is what instance i was given.
struct Sink {
    history: History,
}

impl WriteResource<Error> for Sink {
    fn write(&mut self, data: &[u8]) -> Result<usize, Error> {
        let mut h = self.history.lock().unwrap();
        h.last_mut().unwrap().extend_from_slice(data);
        Ok(data.len())
    }
    fn flush(&mut self) -> Result<(), Error> {
        Ok(())
    }
}

fn sink_proxy() -> (Reopen<Sink, Error, impl Fn() -> Result<Sink, Error>>, History, Handle) {
    let history = History::default();
    let handle = Handle::stub();
    let proxy = Reopen::with_handle(handle.clone(), {
        let history = Arc::clone(&history);
        move || {
            let history = Arc::clone(&history);
            history.lock().unwrap().push(Vec::new());
            Ok(Sink { history })
        }
    })
    .unwrap();
    (proxy, history, handle)
}

/// The growing-sink scenario: a write, a reopen request, and another write —
/// the pre-reopen instance holds exactly the first message and the
/// post-reopen instance exactly the second.
#[test]
fn growing_sink_scenario() {
    let (mut writer, history, handle) = sink_proxy();
    writer.write_all(b"Hello ").unwrap();
    handle.reopen();
    writer.write_all(b"world").unwrap();
    let h = history.lock().unwrap();
    assert_eq!(2, h.len());
    assert_eq!(b"Hello ", &h[0][..]);
    assert_eq!(b"world", &h[1][..]);
}

/// While an explicit lock scope is held, a requested reopen causes no swap;
/// the first operation after release performs exactly one.
#[test]
fn lock_scope_defers_swap() {
    let (mut writer, history, handle) = sink_proxy();
    let lock = writer.lock().unwrap();
    lock.write(b"a").unwrap();
    handle.reopen();
    lock.write(b"b").unwrap();
    {
        let h = history.lock().unwrap();
        assert_eq!(1, h.len());
        assert_eq!(b"ab", &h[0][..]);
    }
    writer.write_all(b"c").unwrap();
    let h = history.lock().unwrap();
    assert_eq!(2, h.len());
    assert_eq!(b"ab", &h[0][..]);
    assert_eq!(b"c", &h[1][..]);
}

/// A source that yields its data one byte per call and requests a reopen
/// from inside every read.
struct ByteSource {
    data: &'static [u8],
    pos: usize,
    handle: Handle,
}

impl ReadResource<Error> for ByteSource {
    fn read(&mut self, want: usize) -> Result<Vec<u8>, Error> {
        self.handle.reopen();
        if want == 0 || self.pos >= self.data.len() {
            return Ok(Vec::new());
        }
        let byte = self.data[self.pos];
        self.pos += 1;
        Ok(vec![byte])
    }
}

/// The chunked-source scenario: a direct read still returns only one byte
/// per call (chunking is the resource's business), while an exact-length
/// read completes across chunks without an intervening swap, even though a
/// reopen is requested inside every single-byte read.
#[test]
fn chunked_source_scenario() {
    let opened = Arc::new(AtomicUsize::new(0));
    let handle = Handle::stub();
    let mut reader = Reopen::with_handle(handle.clone(), {
        let opened = Arc::clone(&opened);
        let handle = handle.clone();
        move || {
            opened.fetch_add(1, Ordering::Relaxed);
            Ok(ByteSource { data: b"hello", pos: 0, handle: handle.clone() })
        }
    })
    .unwrap();
    assert_eq!(1, opened.load(Ordering::Relaxed));
    let buf = reader.read(10).unwrap();
    assert_eq!(1, buf.len());
    assert_eq!(b'h', buf[0]);
    // The read above requested a reopen from the inside: the next operation
    // swaps once, and the exact-length read then runs to completion on that
    // one fresh instance, chunk by chunk.
    let buf = reader.read_exact(5).unwrap();
    assert_eq!(&buf[..], b"hello");
    assert_eq!(2, opened.load(Ordering::Relaxed));
}

/// A failed reconstruction surfaces as the operation's error, is not cached,
/// and the next operation simply tries again.
#[test]
fn constructor_error_resurfaces_and_retries() {
    let attempts = Arc::new(AtomicUsize::new(0));
    let attempts_cp = Arc::clone(&attempts);
    let mut proxy = Reopen::new(move || {
        let n = attempts_cp.fetch_add(1, Ordering::Relaxed);
        if n == 1 {
            Err(Error::new(ErrorKind::NotFound, "gone"))
        } else {
            Ok(Fake)
        }
    })
    .unwrap();
    proxy.handle().reopen();
    let err = proxy.read(1).unwrap_err();
    assert_eq!(ErrorKind::NotFound, err.kind());
    proxy.read(1).unwrap();
    assert_eq!(3, attempts.load(Ordering::Relaxed));
}

/// A sink that accepts nothing.
struct Stuck;

impl WriteResource<Error> for Stuck {
    fn write(&mut self, _data: &[u8]) -> Result<usize, Error> {
        Ok(0)
    }
    fn flush(&mut self) -> Result<(), Error> {
        Ok(())
    }
}

/// A resource that makes no progress turns `write_all` into a `WriteZero`
/// error instead of a spin.
#[test]
fn write_zero_reported() {
    let mut writer = Reopen::new(|| Ok(Stuck)).unwrap();
    let err = writer.write_all(b"x").unwrap_err();
    assert!(matches!(err, OpError::WriteZero));
}

/// Empty operations still run the reopen check but ask nothing of the
/// resource: an exact read of zero bytes and a write of no bytes both
/// succeed, even on a resource that accepts nothing.
#[test]
fn empty_operations() {
    let mut writer = Reopen::new(|| Ok(Stuck)).unwrap();
    writer.write_all(b"").unwrap();
    let mut reader = Reopen::new(|| Ok(Fake)).unwrap();
    let buf = reader.read_exact(0).unwrap();
    assert_eq!(0, buf.len());
}
