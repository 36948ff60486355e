//! The trace-export component: one diagnostic entry point that hands a
//! fixed message to the host's trace capability.

use vstd::prelude::*;

verus! {

/// The host-supplied trace capability, injected explicitly so that the
/// entry point can be driven with any sink. It records one diagnostic line
/// wherever the host directs it and answers with a status code; the module
/// discards that code, so nothing is promised about it. The abstract `log`
/// is the sequence of lines recorded so far: each call appends exactly the
/// message it was given.
pub trait TraceSink {
    /// The lines this sink has recorded, oldest first. An implementation
    /// gives this its own reading; the default, an empty log, lets sinks
    /// written outside the verified library compile without one, and such
    /// impls are not checked against `trace`'s contract.
    open spec fn log(&self) -> Seq<Seq<char>> {
        Seq::empty()
    }

    /// Records one diagnostic message; the returned status is host-defined.
    fn trace(&mut self, message: &str) -> (status: i32)
        ensures
            final(self).log() == old(self).log().push(message@),
    ;
}

/// The diagnostic entry point: hands the fixed greeting to the host's
/// trace capability, exactly once, and returns status `0`, whatever the
/// capability answered.
pub fn hello<T: TraceSink>(sink: &mut T) -> (r: i32)
    ensures
        r == 0,
        final(sink).log() == old(sink).log().push("Hello from XRPL Smart Contract!"@),
{
    let _ = sink.trace("Hello from XRPL Smart Contract!");
    0
}

} // verus!
