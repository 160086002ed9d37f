//! One call of the logging facade, as the sink and the wire see it: the
//! rendered record goes to whatever writer the sink yields, and is discarded
//! where it yields none.

use crate::sink::{slot_after, SinkCall, UartGlobalLogger};
use crate::transport::{accepted, sent_after, wire_after, Attempt, Transfer, UartLogger};
use crate::transport::{lemma_complete_write_appends_record, lemma_write_preserves_order};
use vstd::prelude::*;

verus! {

/// The severity a facade call tags its record with.
#[derive(Clone, Copy, Debug, PartialEq, Eq, Structural)]
pub enum Severity {
    /// Fine-grained tracing.
    Trace,
    /// Help for debugging.
    Debug,
    /// Normal operation.
    Info,
    /// Something worth an operator's look.
    Warn,
    /// Something went wrong.
    Error,
}

/// The wire after a facade call that rendered `bytes` and met `replies` from
/// the peripheral. Without an installed transport the record is dropped.
pub open spec fn wire_after_call(installed: bool, wire: Seq<u8>, bytes: Seq<u8>, replies: Seq<Attempt>) -> Seq<
    u8,
> {
    if installed {
        wire_after(wire, bytes, 0, replies)
    } else {
        wire
    }
}

/// Whether a facade call that rendered `bytes` has returned once the
/// peripheral has given `replies`: at once where there is no writer,
/// otherwise when the last byte has been accepted.
pub open spec fn call_returned(installed: bool, bytes: Seq<u8>, replies: Seq<Attempt>) -> bool {
    !installed || accepted(replies) >= bytes.len()
}

/// Starts a facade call for the rendered record `bytes`: the lease on the
/// installed writer together with the transfer to drive through it, or
/// `None`, the record dropped, while nothing is installed.
pub fn begin<'s, 'b, U>(sink: &'s mut UartGlobalLogger<U>, bytes: &'b [u8]) -> (call: Option<
    (&'s mut UartLogger<U>, Transfer<'b>),
>)
    ensures
        call is Some <==> old(sink).installed(),
        match call {
            Some((writer, job)) => {
                &&& old(sink).handle() == Some(*writer)
                &&& final(sink).handle() == slot_after(
                    old(sink).handle(),
                    SinkCall::Lease(*final(writer)),
                )
                &&& job.record() == bytes@
                &&& job.sent() == 0
            },
            None => final(sink).handle() == old(sink).handle(),
        },
{
    match sink.acquire() {
        Some(writer) => Some((writer, Transfer::new(bytes))),
        None => None,
    }
}

/// Two facade calls made one after the other never mix their bytes: once the
/// first has returned, the wire holds what it held, then the whole first
/// record, then as much of the second as has been accepted, each in its own
/// order.
pub proof fn lemma_calls_do_not_interleave(
    wire: Seq<u8>,
    first: Seq<u8>,
    first_replies: Seq<Attempt>,
    second: Seq<u8>,
    second_replies: Seq<Attempt>,
)
    requires
        call_returned(true, first, first_replies),
    ensures
        wire_after_call(
            true,
            wire_after_call(true, wire, first, first_replies),
            second,
            second_replies,
        ) == wire + first + second.subrange(
            0,
            sent_after(second.len(), 0, second_replies) as int,
        ),
        call_returned(true, second, second_replies) ==> wire_after_call(
            true,
            wire_after_call(true, wire, first, first_replies),
            second,
            second_replies,
        ) == wire + first + second,
{
    lemma_complete_write_appends_record(wire, first, first_replies);
    lemma_write_preserves_order(wire + first, second, 0, second_replies);
    if call_returned(true, second, second_replies) {
        lemma_complete_write_appends_record(wire + first, second, second_replies);
    }
}

/// A facade call made before any install puts nothing on the wire and
/// returns without waiting for the peripheral.
pub proof fn lemma_call_before_install_is_dropped(wire: Seq<u8>, bytes: Seq<u8>, replies: Seq<Attempt>)
    ensures
        wire_after_call(false, wire, bytes, replies) == wire,
        call_returned(false, bytes, Seq::empty()),
{
}

} // verus!
