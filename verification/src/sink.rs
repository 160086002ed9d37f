//! The process-wide log sink: a slot that is empty until startup installs the
//! one transport handle, and that hands out a lease on it ever after.

use crate::transport::UartLogger;
use vstd::prelude::*;

verus! {

/// The slot that holds the installed transport handle, if any.
pub struct UartGlobalLogger<U> {
    slot: Option<UartLogger<U>>,
}

/// A call on the sink, as the laws about sequences of calls see it.
pub enum SinkCall<U> {
    /// An attempt to install this handle.
    Install(UartLogger<U>),
    /// An `acquire` and, where it handed out a lease, the `release` of it;
    /// the holder left the handle in this state.
    Lease(UartLogger<U>),
}

/// The slot after one call: an empty slot takes what is installed and has
/// nothing to lease; an occupied slot keeps its handle against any install,
/// and holds it afterwards as the lease holder left it.
pub open spec fn slot_after<U>(slot: Option<UartLogger<U>>, call: SinkCall<U>) -> Option<
    UartLogger<U>,
> {
    match (slot, call) {
        (None, SinkCall::Install(transport)) => Some(transport),
        (None, SinkCall::Lease(_)) => None,
        (Some(handle), SinkCall::Install(_)) => Some(handle),
        (Some(_), SinkCall::Lease(left)) => Some(left),
    }
}

/// The slot after a sequence of calls, first call first.
pub open spec fn slot_after_all<U>(slot: Option<UartLogger<U>>, calls: Seq<SinkCall<U>>) -> Option<
    UartLogger<U>,
>
    decreases calls.len(),
{
    if calls.len() == 0 {
        slot
    } else {
        slot_after(slot_after_all(slot, calls.drop_last()), calls.last())
    }
}

/// `handle` as the last lease holder among `calls` left it; installs among
/// `calls` have no part in it.
pub open spec fn kept<U>(handle: UartLogger<U>, calls: Seq<SinkCall<U>>) -> UartLogger<U>
    decreases calls.len(),
{
    if calls.len() == 0 {
        handle
    } else {
        match calls.last() {
            SinkCall::Install(_) => kept(handle, calls.drop_last()),
            SinkCall::Lease(left) => left,
        }
    }
}

/// Before any install there is no writer: however often the sink is asked,
/// the slot stays empty, so every `acquire` among those calls comes back
/// with nothing.
pub proof fn lemma_no_writer_before_install<U>(calls: Seq<SinkCall<U>>)
    requires
        forall|i: int| 0 <= i < calls.len() ==> calls[i] is Lease,
    ensures
        slot_after_all(None, calls) is None,
    decreases calls.len(),
{
    if calls.len() > 0 {
        lemma_no_writer_before_install(calls.drop_last());
    }
}

/// The installed state is never left, and no later install replaces the
/// handle: after any calls an occupied slot holds the handle it held, as its
/// lease holders left it.
pub proof fn lemma_installed_is_terminal<U>(handle: UartLogger<U>, calls: Seq<SinkCall<U>>)
    ensures
        slot_after_all(Some(handle), calls) == Some(kept(handle, calls)),
    decreases calls.len(),
{
    if calls.len() > 0 {
        lemma_installed_is_terminal(handle, calls.drop_last());
    }
}

/// After the one install that finds the slot empty, every later call finds
/// that handle installed, whatever the calls are.
pub proof fn lemma_install_once<U>(handle: UartLogger<U>, later: Seq<SinkCall<U>>)
    ensures
        slot_after_all(None, seq![SinkCall::Install(handle)] + later) == Some(kept(handle, later)),
    decreases later.len(),
{
    let first = seq![SinkCall::Install(handle)];
    let calls = first + later;
    if later.len() == 0 {
        assert(calls.drop_last() =~= Seq::<SinkCall<U>>::empty());
        assert(slot_after_all(None::<UartLogger<U>>, calls.drop_last()) is None);
        assert(calls.last() == SinkCall::Install(handle));
    } else {
        lemma_install_once(handle, later.drop_last());
        assert(calls.drop_last() =~= first + later.drop_last());
        assert(calls.last() == later.last());
    }
}

impl<U> UartGlobalLogger<U> {
    /// The installed handle; `None` while nothing is installed.
    pub closed spec fn handle(self) -> Option<UartLogger<U>> {
        self.slot
    }

    /// Whether a transport has been installed.
    pub open spec fn installed(self) -> bool {
        self.handle() is Some
    }

    /// Every byte the wire has taken through this sink; nothing while no
    /// transport is installed.
    pub open spec fn wire(self) -> Seq<u8> {
        match self.handle() {
            Some(handle) => handle.wire(),
            None => Seq::empty(),
        }
    }

    /// An empty slot.
    pub fn new() -> (sink: Self)
        ensures
            sink.handle() is None,
    {
        UartGlobalLogger { slot: None }
    }

    /// Whether a transport has been installed.
    pub fn is_installed(&self) -> (yes: bool)
        ensures
            yes == self.installed(),
    {
        self.slot.is_some()
    }

    /// Installs `transport` into the empty slot.
    pub fn install(&mut self, transport: UartLogger<U>)
        requires
            !old(self).installed(),
        ensures
            final(self).handle() == Some(transport),
    {
        self.slot = Some(transport);
    }

    /// Installs `transport` if the slot is empty. An occupied slot keeps its
    /// handle and the rejected one is handed back.
    pub fn try_install(&mut self, transport: UartLogger<U>) -> (outcome: Result<(), UartLogger<U>>)
        ensures
            final(self).handle() == slot_after(old(self).handle(), SinkCall::Install(transport)),
            outcome == if old(self).installed() {
                Err::<(), UartLogger<U>>(transport)
            } else {
                Ok::<(), UartLogger<U>>(())
            },
    {
        if self.slot.is_some() {
            Err(transport)
        } else {
            self.install(transport);
            Ok(())
        }
    }

    /// Hands out the lease on the installed handle, or `None` while nothing
    /// is installed. What the holder does to the handle through the lease is
    /// what the slot holds afterwards.
    pub fn acquire(&mut self) -> (lease: Option<&mut UartLogger<U>>)
        ensures
            lease is Some <==> old(self).installed(),
            match lease {
                Some(writer) => {
                    &&& old(self).handle() == Some(*writer)
                    &&& final(self).handle() == slot_after(
                        old(self).handle(),
                        SinkCall::Lease(*final(writer)),
                    )
                },
                None => final(self).handle() == old(self).handle(),
            },
    {
        match &mut self.slot {
            Some(writer) => Some(writer),
            None => None,
        }
    }

    /// Returns the lease. The handle stays as the holder left it.
    pub fn release(lease: &mut UartLogger<U>)
        ensures
            *final(lease) == *old(lease),
    {
    }
}

} // verus!
