use std::sync::atomic::{AtomicBool, Ordering};
use std::sync::Arc;
use vstd::prelude::*;

use crate::handle::Handle;
use crate::protocol::{lock_step, ProxyState};

verus! {

/// A proxy over a fallible resource constructor and the resource instance it
/// most recently produced.
///
/// Every top-level operation first consults the shared reopen flag once: if a
/// reopen was requested, the current instance is dropped and the constructor
/// runs again. The check happens only at the start of an operation, never
/// between the inner steps of one, so a single logical operation always runs
/// against a single instance.
#[verifier::reject_recursive_types(FD)]
#[verifier::reject_recursive_types(E)]
#[verifier::reject_recursive_types(C)]
pub struct Reopen<FD, E, C> where C: Fn() -> Result<FD, E> {
    pub(crate) signal: Arc<AtomicBool>,
    pub(crate) constructor: C,
    pub(crate) fd: Option<FD>,
    pub(crate) generation: Ghost<nat>,
}

/// What a proxy looks like in specifications: the stored constructor, the
/// resource instance currently held, and how many instances the constructor
/// has produced for it so far (its generation).
#[verifier::reject_recursive_types(FD)]
#[verifier::reject_recursive_types(C)]
pub ghost struct ProxyView<FD, C> {
    pub signal: Arc<AtomicBool>,
    pub constructor: C,
    pub fd: Option<FD>,
    pub generation: nat,
}

impl<FD, C> ProxyView<FD, C> {
    /// The protocol state this proxy is in, given whether a reopen request
    /// is currently pending in the shared flag (the flag itself is outside
    /// the model: a signal may raise it at any moment).
    pub open spec fn state(self, pending: bool) -> ProxyState {
        ProxyState { pending, open: self.fd is Some, generation: self.generation }
    }
}

/// How an operation relates its pinned instance to the proxy's views: after
/// the operation, the proxy holds some instance `f1` which the operation's
/// resource work advanced, through `rel`, from the instance `f0` that its one
/// reopen check pinned — either the instance already held (same generation)
/// or a fresh product of the constructor (one generation up).
pub open spec fn pinned_pair<FD, E, C>(
    pre: ProxyView<FD, C>,
    post: ProxyView<FD, C>,
    rel: spec_fn(FD, FD) -> bool,
) -> bool where C: Fn() -> Result<FD, E> {
    post.fd matches Some(f1) && ({
        ||| (post.generation == pre.generation && (pre.fd matches Some(f0) && rel(f0, f1)))
        ||| (post.generation == pre.generation + 1 && exists|f0: FD|
            #[trigger] call_ensures(pre.constructor, (), Ok::<FD, E>(f0)) && rel(f0, f1))
    })
}

impl<FD, E, C> View for Reopen<FD, E, C> where C: Fn() -> Result<FD, E> {
    type V = ProxyView<FD, C>;

    closed spec fn view(&self) -> ProxyView<FD, C> {
        ProxyView {
            signal: self.signal,
            constructor: self.constructor,
            fd: self.fd,
            generation: self.generation@,
        }
    }
}

impl<FD, E, C> Reopen<FD, E, C> where C: Fn() -> Result<FD, E> {
    /// The stored constructor takes no argument, so all a proxy ever needs
    /// of it is that it may be called at all.
    pub open spec fn wf(&self) -> bool {
        call_requires(self@.constructor, ())
    }

    /// Creates a proxy with a fresh, unshared handle.
    ///
    /// The constructor runs immediately; its error, if any, is returned as is.
    pub fn new(constructor: C) -> (r: Result<Self, E>)
        requires
            call_requires(constructor, ()),
        ensures
            match r {
                Ok(p) => {
                    &&& p.wf()
                    &&& p@.constructor == constructor
                    &&& p@.generation == 1
                    &&& (p@.fd matches Some(fd) && call_ensures(constructor, (), Ok::<FD, E>(fd)))
                },
                Err(e) => call_ensures(constructor, (), Err::<FD, E>(e)),
            },
            (forall|o: Result<FD, E>| call_ensures(constructor, (), o) ==> o is Ok) ==> r is Ok,
    {
        Self::with_handle(Handle::stub(), constructor)
    }

    /// Creates a proxy controlled by the given handle.
    ///
    /// The constructor runs immediately; its error, if any, is returned as is.
    /// On success the proxy holds the instance the constructor produced and
    /// consults the cell of `handle` before every later operation.
    pub fn with_handle(handle: Handle, constructor: C) -> (r: Result<Self, E>)
        requires
            call_requires(constructor, ()),
        ensures
            match r {
                Ok(p) => {
                    &&& p.wf()
                    &&& p@.signal == handle.cell()
                    &&& p@.constructor == constructor
                    &&& p@.generation == 1
                    &&& (p@.fd matches Some(fd) && call_ensures(constructor, (), Ok::<FD, E>(fd)))
                },
                Err(e) => call_ensures(constructor, (), Err::<FD, E>(e)),
            },
            (forall|o: Result<FD, E>| call_ensures(constructor, (), o) ==> o is Ok) ==> r is Ok,
    {
        let fd = match constructor() {
            Ok(fd) => fd,
            Err(e) => {
                return Err(e);
            },
        };
        Ok(Reopen {
            signal: handle.into_cell(),
            constructor,
            fd: Some(fd),
            generation: Ghost(1nat),
        })
    }

    /// Returns a new handle sharing the cell this proxy consults.
    pub fn handle(&self) -> (h: Handle)
        ensures
            h.cell() == self@.signal,
    {
        Handle::from_cell(crate::handle::clone_arc(&self.signal))
    }

    /// Pins the resource for several operations: performs the reopen check
    /// once and hands out the instance itself. No further check happens until
    /// the borrow ends and a new top-level operation begins.
    ///
    /// The check: the pending flag is consumed; if it was raised, the current
    /// instance is dropped; if no instance is left, the constructor runs. A
    /// construction error is returned as is and nothing is cached: the next
    /// operation simply tries again.
    pub fn lock(&mut self) -> (r: Result<&mut FD, E>)
        requires
            old(self).wf(),
        ensures
            final(self).wf(),
            final(self)@.signal == old(self)@.signal,
            final(self)@.constructor == old(self)@.constructor,
            match r {
                Ok(fd) => {
                    &&& final(self)@.fd == Some(*final(fd))
                    &&& (final(self)@.generation == old(self)@.generation
                        || final(self)@.generation == old(self)@.generation + 1)
                    &&& (final(self)@.generation == old(self)@.generation ==> old(self)@.fd
                        == Some(*fd))
                    &&& (final(self)@.generation == old(self)@.generation + 1 ==> call_ensures(
                        old(self)@.constructor,
                        (),
                        Ok::<FD, E>(*fd),
                    ))
                },
                Err(e) => {
                    &&& call_ensures(old(self)@.constructor, (), Err::<FD, E>(e))
                    &&& final(self)@.fd is None
                    &&& final(self)@.generation == old(self)@.generation
                },
            },
            // The operation is one protocol step: the shared flag, which a
            // signal may raise at any moment, supplies the pending value.
            (final(self)@.state(false) == lock_step(old(self)@.state(false), r is Ok)
                || final(self)@.state(false) == lock_step(old(self)@.state(true), r is Ok)),
            (forall|o: Result<FD, E>|
                call_ensures(old(self)@.constructor, (), o) ==> o is Ok) ==> r is Ok,
    {
        let requested = self.signal.swap(false, Ordering::Relaxed);
        self.settle(requested)
    }

    /// The reopen check itself, given the value drawn from the shared flag:
    /// if a reopen was `requested`, the current instance is dropped; if no
    /// instance is left, the constructor runs. With `requested` pinned, the
    /// contract is exact: an operation that finds the flag clear and an
    /// instance held keeps that instance and swaps nothing; one that finds
    /// the flag raised, or nothing held, holds a fresh construction — and
    /// only then can the constructor's error come back.
    pub fn settle(&mut self, requested: bool) -> (r: Result<&mut FD, E>)
        requires
            old(self).wf(),
        ensures
            final(self).wf(),
            final(self)@.signal == old(self)@.signal,
            final(self)@.constructor == old(self)@.constructor,
            final(self)@.state(false) == lock_step(old(self)@.state(requested), r is Ok),
            match r {
                Ok(fd) => {
                    &&& final(self)@.fd == Some(*final(fd))
                    &&& (!requested && old(self)@.fd is Some ==> old(self)@.fd == Some(*fd)
                        && final(self)@.generation == old(self)@.generation)
                    &&& ((requested || old(self)@.fd is None) ==> call_ensures(
                        old(self)@.constructor,
                        (),
                        Ok::<FD, E>(*fd),
                    ) && final(self)@.generation == old(self)@.generation + 1)
                },
                Err(e) => {
                    &&& call_ensures(old(self)@.constructor, (), Err::<FD, E>(e))
                    &&& (requested || old(self)@.fd is None)
                    &&& final(self)@.fd is None
                    &&& final(self)@.generation == old(self)@.generation
                },
            },
            (forall|o: Result<FD, E>|
                call_ensures(old(self)@.constructor, (), o) ==> o is Ok) ==> r is Ok,
    {
        let ghost pre = self@;
        if requested {
            // Drop the old instance before a replacement is constructed.
            self.fd = None;
        }
        if self.fd.is_none() {
            match (self.constructor)() {
                Ok(fd) => {
                    self.fd = Some(fd);
                    proof {
                        self.generation@ = self.generation@ + 1;
                    }
                },
                Err(e) => {
                    proof {
                        assert(self@.state(false) == lock_step(pre.state(requested), false));
                    }
                    return Err(e);
                },
            }
        }
        proof {
            assert(self@.state(false) == lock_step(pre.state(requested), true));
        }
        match &mut self.fd {
            Some(fd) => Ok(fd),
            None => unreached(),
        }
    }
}

} // verus!
