use vstd::prelude::*;

verus! {

/// The reopen protocol state of a proxy: whether a reopen request is
/// pending, whether a resource instance is held, and how many instances the
/// constructor has produced so far (the generation).
pub ghost struct ProxyState {
    pub pending: bool,
    pub open: bool,
    pub generation: nat,
}

/// One `reopen()` request: it only raises the pending flag.
pub open spec fn request(s: ProxyState) -> ProxyState {
    ProxyState { pending: true, ..s }
}

/// `k` consecutive `reopen()` requests with no operation in between.
pub open spec fn requests(s: ProxyState, k: nat) -> ProxyState
    decreases k,
{
    if k == 0 {
        s
    } else {
        request(requests(s, (k - 1) as nat))
    }
}

/// The reopen check at the head of every top-level operation: the pending
/// flag is consumed; if it was raised, the instance is dropped; if no
/// instance is left, the constructor runs, opening a new generation when it
/// succeeds (`ctor_ok`).
pub open spec fn lock_step(s: ProxyState, ctor_ok: bool) -> ProxyState {
    let checked = ProxyState {
        pending: false,
        open: s.open && !s.pending,
        generation: s.generation,
    };
    if checked.open || !ctor_ok {
        checked
    } else {
        ProxyState { open: true, generation: checked.generation + 1, ..checked }
    }
}



/// One event while a resource instance is pinned — a chunk of a multi-step
/// operation, or one operation against an explicitly locked scope. The
/// resource may do work and anyone may request a reopen (`req`), but the
/// instance itself is untouched: no check runs until the pin ends.
pub open spec fn pinned_step(s: ProxyState, req: bool) -> ProxyState {
    if req {
        request(s)
    } else {
        s
    }
}

/// A whole run of pinned events, oldest first.
pub open spec fn pinned_run(s: ProxyState, reqs: Seq<bool>) -> ProxyState
    decreases reqs.len(),
{
    if reqs.len() == 0 {
        s
    } else {
        pinned_run(pinned_step(s, reqs[0]), reqs.drop_first())
    }
}

/// Requests coalesce: any positive number of consecutive `reopen()` requests
/// leaves the proxy in the same state as a single one.
pub proof fn lemma_requests_coalesce(s: ProxyState, k: nat)
    requires
        1 <= k,
    ensures
        requests(s, k) == request(s),
    decreases k,
{
    if k == 1 {
        assert(requests(s, 0nat) == s);
    } else {
        lemma_requests_coalesce(s, (k - 1) as nat);
    }
}

/// Coalescing to a single swap: after any `k >= 1` reopen requests, the next
/// operation whose construction succeeds swaps the resource exactly once —
/// the generation grows by exactly one — and the operation after that one,
/// with no request in between, changes nothing at all.
pub proof fn lemma_coalesced_single_swap(s: ProxyState, k: nat, later_ok: bool)
    requires
        1 <= k,
    ensures
        ({
            let served = lock_step(requests(s, k), true);
            &&& served.generation == s.generation + 1
            &&& served.open
            &&& !served.pending
            &&& lock_step(served, later_ok) == served
        }),
{
    lemma_requests_coalesce(s, k);
}

/// An operation that finds no request pending and a resource open leaves the
/// proxy exactly as it was: no swap, whatever the constructor would do.
pub proof fn lemma_settled_operation_keeps_instance(s: ProxyState, ctor_ok: bool)
    requires
        s.open,
        !s.pending,
    ensures
        lock_step(s, ctor_ok) == s,
{
}

/// While an instance is pinned, no swap occurs: however much work the
/// resource does and however many reopens are requested meanwhile, the
/// instance and its generation survive until the pin ends.
pub proof fn lemma_pinned_keeps_instance(s: ProxyState, reqs: Seq<bool>)
    ensures
        pinned_run(s, reqs).open == s.open,
        pinned_run(s, reqs).generation == s.generation,
    decreases reqs.len(),
{
    if reqs.len() > 0 {
        lemma_pinned_keeps_instance(pinned_step(s, reqs[0]), reqs.drop_first());
    }
}

/// A pending request is never lost while an instance is pinned: only the
/// check at the next operation consumes it.
pub proof fn lemma_pinned_preserves_pending(s: ProxyState, reqs: Seq<bool>)
    requires
        s.pending,
    ensures
        pinned_run(s, reqs).pending,
    decreases reqs.len(),
{
    if reqs.len() > 0 {
        lemma_pinned_preserves_pending(pinned_step(s, reqs[0]), reqs.drop_first());
    }
}

/// A request made at any point of a pinned run is still pending when the run
/// ends.
pub proof fn lemma_pinned_request_pends(s: ProxyState, reqs: Seq<bool>, i: int)
    requires
        0 <= i < reqs.len(),
        reqs[i],
    ensures
        pinned_run(s, reqs).pending,
    decreases reqs.len(),
{
    if i == 0 {
        lemma_pinned_preserves_pending(pinned_step(s, reqs[0]), reqs.drop_first());
    } else {
        lemma_pinned_request_pends(pinned_step(s, reqs[0]), reqs.drop_first(), i - 1);
    }
}

/// The scoped-lock and multi-step guarantee: one check at the start of an
/// operation pins an instance. A reopen requested at any point while it is
/// pinned — by the resource itself in the middle of a multi-step read, or by
/// anyone while an explicit lock scope is held — causes no swap during the
/// run, and exactly one swap at the next operation after release.
pub proof fn lemma_scope_single_swap(s: ProxyState, reqs: Seq<bool>, i: int)
    requires
        0 <= i < reqs.len(),
        reqs[i],
    ensures
        ({
            let held = lock_step(s, true);
            let end = pinned_run(held, reqs);
            &&& end.generation == held.generation
            &&& end.open == held.open
            &&& lock_step(end, true).generation == held.generation + 1
        }),
{
    let held = lock_step(s, true);
    lemma_pinned_keeps_instance(held, reqs);
    lemma_pinned_request_pends(held, reqs, i);
}

} // verus!
