//! State that the HTTP handlers share.
use tokio::sync::mpsc;
use vstd::prelude::*;

verus! {

#[verifier::external_type_specification]
#[verifier::external_body]
#[verifier::reject_recursive_types(T)]
pub struct ExOwnedPermit<T>(mpsc::OwnedPermit<T>);

#[verifier::external_type_specification]
#[verifier::external_body]
#[verifier::reject_recursive_types(T)]
pub struct ExMpscSender<T>(mpsc::Sender<T>);

/// Calls `tokio::sync::mpsc::OwnedPermit::send`, which puts the value on the channel in the
/// slot that the permit reserved and gives back the sender. The channel is not modelled here,
/// so nothing is stated of the value's delivery or of the sender.
#[verifier::external_body]
fn owned_permit_send<T>(permit: mpsc::OwnedPermit<T>, value: T) -> mpsc::Sender<T> {
    permit.send(value)
}

/// A reserved slot on a channel, which can be used once to send an item.
#[verifier::reject_recursive_types(T)]
pub struct ReservedPermit<T>(Option<mpsc::OwnedPermit<T>>);

impl<T: Send + 'static> ReservedPermit<T> {
    pub fn new(permit: mpsc::OwnedPermit<T>) -> (r: Self)
        ensures
            r.permit() == Some(permit),
    {
        Self(Some(permit))
    }

    /// The permit, while it has not been used.
    pub closed spec fn permit(&self) -> Option<mpsc::OwnedPermit<T>> {
        self.0
    }

    /// Sends `item` with the permit, which is used up. Only one item can be sent.
    pub fn send(&mut self, item: T)
        requires
            old(self).permit() is Some,
        ensures
            final(self).permit() is None,
    {
        let permit = self.0.take().unwrap();
        let _sender = owned_permit_send(permit, item);
    }

    /// A copy that holds no permit, as a request extension needs one. A permit cannot be
    /// shared, so a copy can only be made once the permit has been taken out or used.
    pub fn clone(&self) -> (r: Self)
        requires
            self.permit() is None,
        ensures
            r.permit() is None,
    {
        Self(None)
    }
}

} // verus!
