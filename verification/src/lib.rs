//! A `Read`/`Write`-style proxy that can lazily reopen the underlying
//! I/O resource, typically in response to an operating-system signal
//! (log rotation via `SIGHUP` being the classic use).
//!
//! A [`Reopen`] proxy owns a fallible constructor and the resource instance
//! it most recently produced. A companion [`Handle`] — cloneable, shareable
//! across threads, and safe to use from a signal handler — asks the proxy to
//! drop that instance and construct a fresh one at its next operation.

mod error;
mod handle;
mod protocol;
mod proxy;
mod read;
mod resource;
mod signals;
mod write;

pub use error::OpError;
pub use handle::Handle;
pub use protocol::{
    lemma_coalesced_single_swap, lemma_pinned_keeps_instance, lemma_pinned_preserves_pending,
    lemma_pinned_request_pends, lemma_requests_coalesce, lemma_scope_single_swap,
    lemma_settled_operation_keeps_instance, lock_step, pinned_run, pinned_step, request, requests,
    ProxyState,
};
pub use proxy::{pinned_pair, ProxyView, Reopen};
pub use read::{read_exact_pinned, read_to_end_pinned};
pub use resource::{received_of, yielded_of, ReadResource, WriteResource};
pub use signals::forbidden_signal;
pub use write::write_all_pinned;
