//! Signal-driven reopening, through the process-global registry that
//! signal-hook maintains.

use std::io::Error;
use std::sync::atomic::{AtomicUsize, Ordering};
use std::sync::Arc;

use reopen::{ReadResource, Reopen};
use signal_hook::consts::{SIGHUP, SIGUSR1};
use signal_hook::low_level::raise;

struct Fake(Arc<AtomicUsize>);

impl ReadResource<Error> for Fake {
    fn read(&mut self, _want: usize) -> Result<Vec<u8>, Error> {
        // Pretend it got closed… doesn't matter what we return here.
        Ok(Vec::new())
    }
}

fn counting_proxy(
    counter: &Arc<AtomicUsize>,
) -> Reopen<Fake, Error, impl Fn() -> Result<Fake, Error>> {
    let counter = Arc::clone(counter);
    Reopen::new(move || {
        counter.fetch_add(1, Ordering::Relaxed);
        Ok(Fake(Arc::clone(&counter)))
    })
    .unwrap()
}

#[test]
fn signal_sent() {
    let opened_times = Arc::new(AtomicUsize::new(0));
    let mut reopen = counting_proxy(&opened_times);
    assert_eq!(1, opened_times.load(Ordering::Relaxed));
    let buf = reopen.read(1).unwrap();
    assert_eq!(0, buf.len());
    assert_eq!(1, opened_times.load(Ordering::Relaxed));
    // Don't register sooner, in case some other test uses the signal.
    reopen.handle().register_signal(SIGHUP).unwrap();
    // Now send us a signal. `raise` delivers it to the calling thread, so the
    // handler has run by the time it returns.
    raise(SIGHUP).unwrap();
    let buf = reopen.read(1).unwrap();
    assert_eq!(0, buf.len());
    // It got reopened
    assert_eq!(2, opened_times.load(Ordering::Relaxed));
}

/// Two handles subscribed to the same signal number both get their flag
/// raised by a single delivery: both proxies reopen at their next operation.
#[test]
fn two_subscribers_one_signal() {
    let opened_a = Arc::new(AtomicUsize::new(0));
    let opened_b = Arc::new(AtomicUsize::new(0));
    let mut a = counting_proxy(&opened_a);
    let mut b = counting_proxy(&opened_b);
    a.handle().register_signal(SIGUSR1).unwrap();
    b.handle().register_signal(SIGUSR1).unwrap();
    raise(SIGUSR1).unwrap();
    a.read(1).unwrap();
    b.read(1).unwrap();
    assert_eq!(2, opened_a.load(Ordering::Relaxed));
    assert_eq!(2, opened_b.load(Ordering::Relaxed));
}
