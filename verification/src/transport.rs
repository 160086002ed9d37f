//! The blocking byte transport: one record is handed to the serial peripheral
//! byte by byte, each byte offered again until the hardware takes it.
//!
//! The waiting itself is the driver's: it offers the pending byte to the
//! peripheral and reports the answer here. What to offer, when to move on and
//! what has reached the wire is decided and recorded here.

use vstd::prelude::*;

verus! {

/// What the serial peripheral answered when it was offered one byte.
#[derive(Clone, Copy, Debug, PartialEq, Eq, Structural)]
pub enum Attempt {
    /// The hardware buffer took the byte.
    Accepted,
    /// The buffer was full or the line busy: the byte was not taken.
    Busy,
}

/// How many bytes of a record of `len` bytes are on the wire after the
/// peripheral answered `reply` to the byte at position `sent`.
pub open spec fn sent_step(len: nat, sent: nat, reply: Attempt) -> nat {
    if sent < len && reply == Attempt::Accepted {
        sent + 1
    } else {
        sent
    }
}

/// The wire after the peripheral answered `reply` to the byte of `bytes` at
/// position `sent`.
pub open spec fn wire_step(wire: Seq<u8>, bytes: Seq<u8>, sent: nat, reply: Attempt) -> Seq<u8> {
    if sent < bytes.len() && reply == Attempt::Accepted {
        wire.push(bytes[sent as int])
    } else {
        wire
    }
}

/// How many bytes of a record of `len` bytes are on the wire once the
/// peripheral has given `replies`, one per offer, starting from `sent` bytes.
pub open spec fn sent_after(len: nat, sent: nat, replies: Seq<Attempt>) -> nat
    decreases replies.len(),
{
    if replies.len() == 0 {
        sent
    } else {
        sent_step(len, sent_after(len, sent, replies.drop_last()), replies.last())
    }
}

/// The wire once the peripheral has given `replies`, one per offer, to a
/// transfer of `bytes` that had `sent` bytes behind it.
pub open spec fn wire_after(wire: Seq<u8>, bytes: Seq<u8>, sent: nat, replies: Seq<Attempt>) -> Seq<u8>
    decreases replies.len(),
{
    if replies.len() == 0 {
        wire
    } else {
        wire_step(
            wire_after(wire, bytes, sent, replies.drop_last()),
            bytes,
            sent_after(bytes.len(), sent, replies.drop_last()),
            replies.last(),
        )
    }
}

/// How often the peripheral accepted a byte among `replies`.
pub open spec fn accepted(replies: Seq<Attempt>) -> nat
    decreases replies.len(),
{
    if replies.len() == 0 {
        0
    } else {
        accepted(replies.drop_last()) + if replies.last() == Attempt::Accepted {
            1nat
        } else {
            0nat
        }
    }
}

/// A transfer advances by one byte for each acceptance and by nothing else,
/// until the record is complete: busy replies cost time, never bytes.
pub proof fn lemma_sent_counts_acceptances(len: nat, sent: nat, replies: Seq<Attempt>)
    requires
        sent <= len,
    ensures
        sent_after(len, sent, replies) == if sent + accepted(replies) <= len {
            sent + accepted(replies)
        } else {
            len
        },
    decreases replies.len(),
{
    if replies.len() > 0 {
        lemma_sent_counts_acceptances(len, sent, replies.drop_last());
    }
}

/// Whatever the peripheral answers, the wire grows by the bytes of the record
/// in their order: what a transfer has put on the wire is the stretch of the
/// record between where it started and where it stands, with no byte
/// reordered, repeated or left out.
pub proof fn lemma_write_preserves_order(wire: Seq<u8>, bytes: Seq<u8>, sent: nat, replies: Seq<Attempt>)
    requires
        sent <= bytes.len(),
    ensures
        sent <= sent_after(bytes.len(), sent, replies) <= bytes.len(),
        wire_after(wire, bytes, sent, replies) == wire + bytes.subrange(
            sent as int,
            sent_after(bytes.len(), sent, replies) as int,
        ),
    decreases replies.len(),
{
    if replies.len() == 0 {
        assert(bytes.subrange(sent as int, sent as int) =~= Seq::<u8>::empty());
        assert(wire + Seq::<u8>::empty() =~= wire);
    } else {
        let earlier = replies.drop_last();
        let at = sent_after(bytes.len(), sent, earlier);
        lemma_write_preserves_order(wire, bytes, sent, earlier);
        if at < bytes.len() && replies.last() == Attempt::Accepted {
            assert(bytes.subrange(sent as int, at as int).push(bytes[at as int])
                =~= bytes.subrange(sent as int, at as int + 1));
            assert((wire + bytes.subrange(sent as int, at as int)).push(bytes[at as int])
                =~= wire + bytes.subrange(sent as int, at as int + 1));
        }
    }
}

/// A record sent from its first byte is on the wire whole, and nothing but
/// it, as soon as the peripheral has accepted as many bytes as it is long.
/// This holds of the empty record too, which needs no reply at all.
pub proof fn lemma_complete_write_appends_record(wire: Seq<u8>, bytes: Seq<u8>, replies: Seq<Attempt>)
    requires
        accepted(replies) >= bytes.len(),
    ensures
        sent_after(bytes.len(), 0, replies) == bytes.len(),
        wire_after(wire, bytes, 0, replies) == wire + bytes,
{
    lemma_sent_counts_acceptances(bytes.len(), 0, replies);
    lemma_write_preserves_order(wire, bytes, 0, replies);
    assert(bytes.subrange(0, bytes.len() as int) =~= bytes);
}

/// Exclusive ownership of the serial peripheral `U`, together with the
/// history of every byte the peripheral was reported to have accepted under
/// this handle.
pub struct UartLogger<U> {
    uart: U,
    wire: Ghost<Seq<u8>>,
}

/// Progress of one record on its way to the wire.
pub struct Transfer<'a> {
    bytes: &'a [u8],
    sent: usize,
}

impl<'a> Transfer<'a> {
    #[verifier::type_invariant]
    spec fn inv(self) -> bool {
        self.sent <= self.bytes@.len()
    }

    /// The record being transferred.
    pub closed spec fn record(self) -> Seq<u8> {
        self.bytes@
    }

    /// How many bytes of the record the peripheral has accepted.
    pub closed spec fn sent(self) -> nat {
        self.sent as nat
    }

    /// A transfer of `bytes` of which nothing has been sent yet.
    pub fn new(bytes: &'a [u8]) -> (job: Self)
        ensures
            job.record() == bytes@,
            job.sent() == 0,
    {
        Transfer { bytes, sent: 0 }
    }

    /// The byte to offer the peripheral next; `None` once the whole record
    /// is on the wire.
    pub fn pending(&self) -> (next: Option<u8>)
        ensures
            self.sent() <= self.record().len(),
            next == if self.sent() < self.record().len() {
                Some(self.record()[self.sent() as int])
            } else {
                None
            },
    {
        proof {
            use_type_invariant(self);
        }
        if self.sent < self.bytes.len() {
            Some(self.bytes[self.sent])
        } else {
            None
        }
    }
}

impl<U> UartLogger<U> {
    /// The peripheral this handle owns.
    pub closed spec fn peripheral(self) -> U {
        self.uart
    }

    /// Every byte the peripheral has accepted under this handle, oldest first.
    pub closed spec fn wire(self) -> Seq<u8> {
        self.wire@
    }

    /// Takes ownership of the peripheral; nothing is on the wire yet.
    pub fn new(uart: U) -> (handle: Self)
        ensures
            handle.peripheral() == uart,
            handle.wire() == Seq::<u8>::empty(),
    {
        UartLogger { uart, wire: Ghost(Seq::empty()) }
    }

    /// The peripheral, to look at.
    pub fn uart(&self) -> (uart: &U)
        ensures
            *uart == self.peripheral(),
    {
        &self.uart
    }

    /// Access to the peripheral, to offer it the pending byte.
    pub fn uart_mut(&mut self) -> (uart: &mut U)
        ensures
            *uart == old(self).peripheral(),
            final(self).peripheral() == *final(uart),
            final(self).wire() == old(self).wire(),
    {
        &mut self.uart
    }

    /// Records the peripheral's answer to the pending byte of `job`: an
    /// accepted byte joins the wire and the next one becomes pending, a busy
    /// peripheral leaves everything as it was. A reply that comes when
    /// nothing is pending is ignored.
    pub fn write(&mut self, job: &mut Transfer<'_>, reply: Attempt)
        ensures
            final(self).peripheral() == old(self).peripheral(),
            final(self).wire() == wire_step(old(self).wire(), old(job).record(), old(job).sent(), reply),
            final(job).record() == old(job).record(),
            final(job).sent() == sent_step(old(job).record().len(), old(job).sent(), reply),
    {
        proof {
            use_type_invariant(&*job);
        }
        if job.sent < job.bytes.len() {
            match reply {
                Attempt::Accepted => {
                    proof {
                        self.wire@ = self.wire@.push(job.bytes@[job.sent as int]);
                    }
                    job.sent = job.sent + 1;
                },
                Attempt::Busy => {},
            }
        }
    }
}

} // verus!
