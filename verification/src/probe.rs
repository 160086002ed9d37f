//! The presence probe: one bus transaction to the companion device, read as
//! a yes or a no.

use vstd::prelude::*;

verus! {

/// How the single bus transaction of a probe ended.
#[derive(Clone, Copy, Debug, PartialEq, Eq, Structural)]
pub enum BusReply {
    /// The addressed device acknowledged.
    Acknowledged,
    /// Nothing acknowledged the address.
    NotAcknowledged,
    /// The bus did not complete the transaction in time.
    TimedOut,
    /// The bus reported any other error.
    Fault,
}

/// Whether `reply` shows the companion device to be there.
pub open spec fn is_present(reply: BusReply) -> bool {
    reply == BusReply::Acknowledged
}

/// The verdict of one probe: present exactly when the device acknowledged.
/// The verdict is read off the one reply alone, so probes of an absent
/// device all say no and probes of an acknowledging one all say yes.
pub fn present(reply: BusReply) -> (verdict: bool)
    ensures
        verdict == is_present(reply),
{
    match reply {
        BusReply::Acknowledged => true,
        BusReply::NotAcknowledged => false,
        BusReply::TimedOut => false,
        BusReply::Fault => false,
    }
}

} // verus!
