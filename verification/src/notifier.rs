//! The sending half of the change-notification bus: frames the datagram
//! for a changed parameter id. The rim puts each frame on the well-known
//! host-local multicast group.

use vstd::prelude::*;

use crate::wire::{encode_notification, spec_encode_notification};
use crate::EconfError;

verus! {

/// Frames change notifications for the bus.
pub struct Notifier {}

impl Notifier {
    /// Make a notifier.
    pub fn new() -> (r: Result<Notifier, EconfError>)
        ensures
            r is Ok,
    {
        Ok(Notifier {})
    }

    /// The datagram announcing a change of parameter `id`.
    pub fn notification_payload(&self, id: u32) -> (r: Vec<u8>)
        ensures
            r@ == spec_encode_notification(id),
    {
        encode_notification(id)
    }
}

} // verus!
