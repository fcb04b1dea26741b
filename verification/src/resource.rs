use vstd::prelude::*;

verus! {

/// The bytes a read trace has handed out altogether: each entry is one
/// `read` call, oldest first — how many bytes were asked for and the answer.
pub open spec fn yielded_of(rs: Seq<(usize, Seq<u8>)>) -> Seq<u8>
    decreases rs.len(),
{
    if rs.len() == 0 {
        Seq::empty()
    } else {
        yielded_of(rs.drop_last()) + rs.last().1
    }
}

/// The bytes a write trace has accepted altogether: each entry is one
/// `write` call — the bytes handed in and how many of them the resource
/// took.
pub open spec fn received_of(ws: Seq<(Seq<u8>, nat)>) -> Seq<u8>
    decreases ws.len(),
{
    if ws.len() == 0 {
        Seq::empty()
    } else {
        received_of(ws.drop_last()) + ws.last().0.take(ws.last().1 as int)
    }
}

/// A readable resource: the capability a [`Reopen`](crate::Reopen) proxy
/// wraps on its read side.
///
/// Its abstract state is the trace of answers it has given, so the proxy's
/// contracts can say which bytes an operation got and from which instance.
pub trait ReadResource<E> {
    /// The `read` calls this instance has answered so far, oldest first:
    /// how many bytes were asked for, and the answer. Implementations
    /// verified here would override it; an implementation outside the
    /// verifier's view leaves it abstract, and the hidden default is never
    /// inspected.
    closed spec fn reads(&self) -> Seq<(usize, Seq<u8>)> {
        Seq::empty()
    }

    /// Reads at most `want` bytes from the resource. An empty answer for a
    /// nonzero `want` means the end of the current data was reached; after
    /// the proxy reopens, later reads may produce data again. A successful
    /// call answers with exactly the bytes it appends to the trace.
    fn read(&mut self, want: usize) -> (r: Result<Vec<u8>, E>)
        ensures
            (r matches Ok(d) ==> d@.len() <= want && final(self).reads() == old(self).reads().push(
                (want, d@),
            )),
    ;
}

/// A writable resource: the capability a [`Reopen`](crate::Reopen) proxy
/// wraps on its write side.
///
/// Its abstract state is the trace of writes it has accepted, so the proxy's
/// contracts can say which bytes reached which instance.
pub trait WriteResource<E> {
    /// The `write` calls this instance has answered so far, oldest first:
    /// the bytes handed in and how many of them the resource accepted.
    /// Implementations verified here would override it; an implementation
    /// outside the verifier's view leaves it abstract, and the hidden
    /// default is never inspected.
    closed spec fn writes(&self) -> Seq<(Seq<u8>, nat)> {
        Seq::empty()
    }

    /// Writes a prefix of `data` to the resource, returning how many bytes
    /// it accepted. A successful call appends exactly that answer to the
    /// trace.
    fn write(&mut self, data: &[u8]) -> (r: Result<usize, E>)
        ensures
            (r matches Ok(n) ==> n <= data@.len() && final(self).writes()
                == old(self).writes().push((data@, n as nat))),
    ;

    /// How many `flush` calls this instance has answered successfully.
    /// Hidden and abstract in the same way as the trace of writes.
    closed spec fn flushes(&self) -> nat {
        0
    }

    /// Flushes anything the resource has buffered towards its destination:
    /// it accepts no bytes, so a successful call moves the flush count and
    /// nothing else.
    fn flush(&mut self) -> (r: Result<(), E>)
        ensures
            (r matches Ok(u) ==> final(self).flushes() == old(self).flushes() + 1
                && final(self).writes() == old(self).writes()),
    ;
}

} // verus!
