use vstd::prelude::*;

use crate::error::OpError;
use crate::proxy::{pinned_pair, Reopen};
use crate::resource::{received_of, WriteResource};

verus! {

/// Writes all of `data` to one already-pinned instance, in as many chunks as
/// the resource asks for; the reopen flag is out of reach here, so no swap
/// can interrupt the run. On success the instance accepted exactly `data`;
/// an answer that accepts nothing is reported as [`OpError::WriteZero`].
pub fn write_all_pinned<FD, E>(fd: &mut FD, data: &[u8]) -> (r: Result<(), OpError<E>>) where
    FD: WriteResource<E>,

    ensures
        match r {
            Ok(u) => received_of(final(fd).writes()) == received_of(old(fd).writes()) + data@,
            Err(e) => {
                &&& !(e is UnexpectedEof)
                &&& (e is WriteZero ==> {
                    &&& final(fd).writes().len() > old(fd).writes().len()
                    &&& final(fd).writes().last().1 == 0
                    &&& exists|w: int|
                        0 <= w < data@.len() && received_of(final(fd).writes()) == received_of(
                            old(fd).writes(),
                        ) + #[trigger] data@.subrange(0, w)
                })
            },
        },
{
    let mut written: usize = 0;
    while written < data.len()
        invariant
            written <= data@.len(),
            received_of(fd.writes()) == received_of(old(fd).writes()) + data@.subrange(
                0,
                written as int,
            ),
            fd.writes().len() >= old(fd).writes().len(),
        decreases data@.len() - written,
    {
        let ghost prev = fd.writes();
        let n = match fd.write(&data[written..data.len()]) {
            Ok(n) => n,
            Err(e) => {
                return Err(OpError::Resource(e));
            },
        };
        proof {
            assert(fd.writes().drop_last() =~= prev);
            assert(data@.subrange(written as int, data@.len() as int).take(n as int)
                =~= data@.subrange(written as int, written + n));
            assert(received_of(fd.writes()) == received_of(prev) + data@.subrange(
                written as int,
                written + n,
            ));
            assert(received_of(old(fd).writes()) + data@.subrange(0, written as int)
                + data@.subrange(written as int, written + n) =~= received_of(old(fd).writes())
                + data@.subrange(0, written + n));
        }
        if n == 0 {
            proof {
                assert(data@.subrange(written as int, written + 0) =~= Seq::<u8>::empty());
                assert(received_of(fd.writes()) == received_of(old(fd).writes()) + data@.subrange(
                    0,
                    written as int,
                ));
            }
            return Err(OpError::WriteZero);
        }
        written = written + n;
    }
    Ok(())
}

impl<FD, E, C> Reopen<FD, E, C> where FD: WriteResource<E>, C: Fn() -> Result<FD, E> {
    /// Writes a prefix of `data`, returning how many bytes the resource
    /// accepted: one reopen check, then a single write against the pinned
    /// instance, whose answer — the one entry the call appends to that
    /// instance's trace — is returned unchanged.
    pub fn write(&mut self, data: &[u8]) -> (r: Result<usize, E>)
        requires
            old(self).wf(),
        ensures
            final(self).wf(),
            final(self)@.signal == old(self)@.signal,
            final(self)@.constructor == old(self)@.constructor,
            final(self)@.generation == old(self)@.generation || final(self)@.generation == old(self)@.generation + 1,
            match r {
                Ok(m) => {
                    &&& m <= data@.len()
                    &&& pinned_pair::<FD, E, C>(
                        old(self)@,
                        final(self)@,
                        |f0: FD, f1: FD| f1.writes() == f0.writes().push((data@, m as nat)),
                    )
                },
                Err(e) => (call_ensures(old(self)@.constructor, (), Err::<FD, E>(e)) && final(self)@.fd is None && final(self)@.generation == old(self)@.generation) || final(self)@.fd is Some,
            },
    {
        let fd = match self.lock() {
            Ok(fd) => fd,
            Err(e) => {
                return Err(e);
            },
        };
        fd.write(data)
    }

    /// Writes all of `data`: one reopen check up front, then as many chunked
    /// writes against the one pinned instance as the resource needs — a
    /// reopen requested mid-way waits until the next operation. On success
    /// that one instance accepted exactly `data`.
    pub fn write_all(&mut self, data: &[u8]) -> (r: Result<(), OpError<E>>)
        requires
            old(self).wf(),
        ensures
            final(self).wf(),
            final(self)@.signal == old(self)@.signal,
            final(self)@.constructor == old(self)@.constructor,
            final(self)@.generation == old(self)@.generation || final(self)@.generation == old(self)@.generation + 1,
            match r {
                Ok(u) => pinned_pair::<FD, E, C>(
                    old(self)@,
                    final(self)@,
                    |f0: FD, f1: FD| received_of(f1.writes()) == received_of(f0.writes()) + data@,
                ),
                Err(e) => {
                    &&& !(e is UnexpectedEof)
                    &&& (e matches OpError::Resource(inner) ==> (call_ensures(old(self)@.constructor, (), Err::<FD, E>(inner)) && final(self)@.fd is None && final(self)@.generation == old(self)@.generation) || final(self)@.fd is Some)
                    &&& (e is WriteZero ==> pinned_pair::<FD, E, C>(
                        old(self)@,
                        final(self)@,
                        |f0: FD, f1: FD| {
                            &&& f1.writes().len() > f0.writes().len()
                            &&& f1.writes().last().1 == 0
                            &&& received_of(f0.writes()).len() <= received_of(f1.writes()).len()
                                < received_of(f0.writes()).len() + data@.len()
                        },
                    ))
                },
            },
    {
        let fd = match self.lock() {
            Ok(fd) => fd,
            Err(e) => {
                return Err(OpError::Resource(e));
            },
        };
        write_all_pinned(fd, data)
    }

    /// Flushes the resource: one reopen check, then a single flush against
    /// the pinned instance, which accepts no bytes by it.
    pub fn flush(&mut self) -> (r: Result<(), E>)
        requires
            old(self).wf(),
        ensures
            final(self).wf(),
            final(self)@.signal == old(self)@.signal,
            final(self)@.constructor == old(self)@.constructor,
            final(self)@.generation == old(self)@.generation || final(self)@.generation == old(self)@.generation + 1,
            match r {
                Ok(u) => pinned_pair::<FD, E, C>(
                    old(self)@,
                    final(self)@,
                    |f0: FD, f1: FD| f1.flushes() == f0.flushes() + 1 && f1.writes() == f0.writes(),
                ),
                Err(e) => (call_ensures(old(self)@.constructor, (), Err::<FD, E>(e)) && final(self)@.fd is None && final(self)@.generation == old(self)@.generation) || final(self)@.fd is Some,
            },
    {
        let fd = match self.lock() {
            Ok(fd) => fd,
            Err(e) => {
                return Err(e);
            },
        };
        fd.flush()
    }
}

} // verus!
