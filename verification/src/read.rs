use vstd::prelude::*;

use crate::error::OpError;
use crate::proxy::{pinned_pair, Reopen};
use crate::resource::{yielded_of, ReadResource};

verus! {

/// Reads exactly `n` bytes from one already-pinned instance, in as many
/// chunks as the resource needs; the reopen flag is out of reach here, so no
/// swap can interrupt the run. On success the returned bytes are exactly
/// what the instance yielded over the call; the end of the data short of `n`
/// — an empty answer — is reported as [`OpError::UnexpectedEof`].
pub fn read_exact_pinned<FD, E>(fd: &mut FD, n: usize) -> (r: Result<Vec<u8>, OpError<E>>) where
    FD: ReadResource<E>,

    ensures
        match r {
            Ok(d) => {
                &&& d@.len() == n
                &&& yielded_of(final(fd).reads()) == yielded_of(old(fd).reads()) + d@
                &&& final(fd).reads().len() >= old(fd).reads().len()
            },
            Err(e) => {
                &&& !(e is WriteZero)
                &&& (e is UnexpectedEof ==> {
                    &&& final(fd).reads().len() > old(fd).reads().len()
                    &&& final(fd).reads().last().1 == Seq::<u8>::empty()
                    &&& yielded_of(old(fd).reads()).len() <= yielded_of(final(fd).reads()).len()
                        < yielded_of(old(fd).reads()).len() + n
                })
            },
        },
{
    let mut data: Vec<u8> = Vec::new();
    while data.len() < n
        invariant
            data@.len() <= n,
            yielded_of(fd.reads()) == yielded_of(old(fd).reads()) + data@,
            fd.reads().len() >= old(fd).reads().len(),
        decreases n - data@.len(),
    {
        let ghost prev = fd.reads();
        let mut chunk = match fd.read(n - data.len()) {
            Ok(c) => c,
            Err(e) => {
                return Err(OpError::Resource(e));
            },
        };
        proof {
            assert(fd.reads().drop_last() =~= prev);
            assert(yielded_of(fd.reads()) == yielded_of(prev) + chunk@);
            assert(yielded_of(old(fd).reads()) + data@ + chunk@
                =~= yielded_of(old(fd).reads()) + (data@ + chunk@));
        }
        if chunk.is_empty() {
            proof {
                assert(chunk@ =~= Seq::<u8>::empty());
                assert(yielded_of(old(fd).reads()) + data@ + chunk@
                    =~= yielded_of(old(fd).reads()) + data@);
            }
            return Err(OpError::UnexpectedEof);
        }
        data.append(&mut chunk);
    }
    Ok(data)
}

/// Appends everything one already-pinned instance has left onto `buf` and
/// returns how many bytes arrived; again no reopen check can run mid-way.
/// On success the appended bytes are exactly what the instance yielded, and
/// the instance's last answer was empty: its data really was exhausted.
pub fn read_to_end_pinned<FD, E>(fd: &mut FD, buf: &mut Vec<u8>) -> (r: Result<usize, E>) where
    FD: ReadResource<E>,

    ensures
        final(buf)@.len() >= old(buf)@.len(),
        final(buf)@.subrange(0, old(buf)@.len() as int) == old(buf)@,
        (r matches Ok(m) ==> {
            &&& final(buf)@.len() == old(buf)@.len() + m
            &&& yielded_of(final(fd).reads()) == yielded_of(old(fd).reads()) + final(buf)@.subrange(old(buf)@.len() as int, final(buf)@.len() as int)
            &&& final(fd).reads().len() > old(fd).reads().len()
            &&& final(fd).reads().last().1 == Seq::<u8>::empty()
        }),
{
    let start = buf.len();
    loop
        invariant
            start == old(buf)@.len(),
            start <= buf@.len(),
            buf@.subrange(0, start as int) == old(buf)@,
            yielded_of(fd.reads()) == yielded_of(old(fd).reads()) + buf@.subrange(
                start as int,
                buf@.len() as int,
            ),
            fd.reads().len() >= old(fd).reads().len(),
        ensures
            fd.reads().len() > old(fd).reads().len(),
            fd.reads().last().1 == Seq::<u8>::empty(),
        decreases usize::MAX - buf.len(),
    {
        let ghost prev = fd.reads();
        let ghost held = buf@;
        let mut chunk = match fd.read(8192) {
            Ok(c) => c,
            Err(e) => {
                return Err(e);
            },
        };
        proof {
            assert(fd.reads().drop_last() =~= prev);
            assert(yielded_of(fd.reads()) == yielded_of(prev) + chunk@);
        }
        if chunk.is_empty() {
            proof {
                assert(chunk@ =~= Seq::<u8>::empty());
                assert(yielded_of(prev) + chunk@ =~= yielded_of(prev));
            }
            break ;
        }
        proof {
            assert((held + chunk@).subrange(0, start as int) =~= held.subrange(0, start as int));
            assert((held + chunk@).subrange(start as int, (held + chunk@).len() as int)
                =~= held.subrange(start as int, held.len() as int) + chunk@);
            assert(yielded_of(old(fd).reads()) + held.subrange(start as int, held.len() as int)
                + chunk@ =~= yielded_of(old(fd).reads()) + (held.subrange(
                start as int,
                held.len() as int,
            ) + chunk@));
        }
        buf.append(&mut chunk);
    }
    let end = buf.len();
    Ok(end - start)
}

impl<FD, E, C> Reopen<FD, E, C> where FD: ReadResource<E>, C: Fn() -> Result<FD, E> {
    /// Reads at most `want` bytes: one reopen check, then a single read
    /// against the pinned instance, whose answer — the one entry the call
    /// appends to that instance's trace — is returned unchanged.
    pub fn read(&mut self, want: usize) -> (r: Result<Vec<u8>, E>)
        requires
            old(self).wf(),
        ensures
            final(self).wf(),
            final(self)@.signal == old(self)@.signal,
            final(self)@.constructor == old(self)@.constructor,
            final(self)@.generation == old(self)@.generation || final(self)@.generation == old(self)@.generation + 1,
            match r {
                Ok(d) => {
                    &&& d@.len() <= want
                    &&& pinned_pair::<FD, E, C>(
                        old(self)@,
                        final(self)@,
                        |f0: FD, f1: FD| f1.reads() == f0.reads().push((want, d@)),
                    )
                },
                Err(e) => (call_ensures(old(self)@.constructor, (), Err::<FD, E>(e)) && final(self)@.fd is None && final(self)@.generation == old(self)@.generation) || final(self)@.fd is Some,
            },
    {
        let fd = match self.lock() {
            Ok(fd) => fd,
            Err(e) => {
                return Err(e);
            },
        };
        fd.read(want)
    }

    /// Reads exactly `n` bytes: one reopen check up front, then as many
    /// chunked reads against the one pinned instance as the resource needs —
    /// a reopen requested mid-way waits until the next operation. On success
    /// the returned bytes are exactly what that one instance yielded over
    /// the operation.
    pub fn read_exact(&mut self, n: usize) -> (r: Result<Vec<u8>, OpError<E>>)
        requires
            old(self).wf(),
        ensures
            final(self).wf(),
            final(self)@.signal == old(self)@.signal,
            final(self)@.constructor == old(self)@.constructor,
            final(self)@.generation == old(self)@.generation || final(self)@.generation == old(self)@.generation + 1,
            match r {
                Ok(d) => {
                    &&& d@.len() == n
                    &&& pinned_pair::<FD, E, C>(
                        old(self)@,
                        final(self)@,
                        |f0: FD, f1: FD| yielded_of(f1.reads()) == yielded_of(f0.reads()) + d@,
                    )
                },
                Err(e) => {
                    &&& !(e is WriteZero)
                    &&& (e matches OpError::Resource(inner) ==> (call_ensures(old(self)@.constructor, (), Err::<FD, E>(inner)) && final(self)@.fd is None && final(self)@.generation == old(self)@.generation) || final(self)@.fd is Some)
                    &&& (e is UnexpectedEof ==> pinned_pair::<FD, E, C>(
                        old(self)@,
                        final(self)@,
                        |f0: FD, f1: FD| {
                            &&& f1.reads().len() > f0.reads().len()
                            &&& f1.reads().last().1 == Seq::<u8>::empty()
                            &&& yielded_of(f0.reads()).len() <= yielded_of(f1.reads()).len()
                                < yielded_of(f0.reads()).len() + n
                        },
                    ))
                },
            },
    {
        let fd = match self.lock() {
            Ok(fd) => fd,
            Err(e) => {
                return Err(OpError::Resource(e));
            },
        };
        read_exact_pinned(fd, n)
    }

    /// Appends everything the resource has left onto `buf`, returning how
    /// many bytes arrived: one reopen check, then chunked reads against the
    /// one pinned instance until it reports the end of its data. On success
    /// the appended bytes are exactly what that instance yielded.
    ///
    /// Reaching the end is not terminal for the proxy: after a reopen, the
    /// next call may produce data again.
    pub fn read_to_end(&mut self, buf: &mut Vec<u8>) -> (r: Result<usize, E>)
        requires
            old(self).wf(),
        ensures
            final(self).wf(),
            final(self)@.signal == old(self)@.signal,
            final(self)@.constructor == old(self)@.constructor,
            final(self)@.generation == old(self)@.generation || final(self)@.generation == old(self)@.generation + 1,
            final(buf)@.len() >= old(buf)@.len(),
            final(buf)@.subrange(0, old(buf)@.len() as int) == old(buf)@,
            match r {
                Ok(m) => {
                    &&& final(buf)@.len() == old(buf)@.len() + m
                    &&& pinned_pair::<FD, E, C>(
                        old(self)@,
                        final(self)@,
                        |f0: FD, f1: FD| {
                            &&& yielded_of(f1.reads()) == yielded_of(f0.reads()) + final(buf)@.subrange(old(buf)@.len() as int, final(buf)@.len() as int)
                            &&& f1.reads().len() > f0.reads().len()
                            &&& f1.reads().last().1 == Seq::<u8>::empty()
                        },
                    )
                },
                Err(e) => (call_ensures(old(self)@.constructor, (), Err::<FD, E>(e)) && final(self)@.fd is None && final(self)@.generation == old(self)@.generation) || final(self)@.fd is Some,
            },
    {
        let fd = match self.lock() {
            Ok(fd) => fd,
            Err(e) => {
                return Err(e);
            },
        };
        read_to_end_pinned(fd, buf)
    }
}

} // verus!
