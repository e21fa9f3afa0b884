//! A channel receiver that can hold back one item it has looked at.
use async_channel::{Receiver, TryRecvError};
use vstd::prelude::*;

verus! {

#[verifier::external_type_specification]
#[verifier::external_body]
#[verifier::reject_recursive_types(T)]
pub struct ExReceiver<T>(Receiver<T>);

#[verifier::external_type_specification]
#[verifier::external_body]
pub struct ExTryRecvError(TryRecvError);

/// Takes an item without waiting with `async_channel::Receiver::try_recv`.
/// What comes back depends on the other ends of the channel, so nothing is
/// stated of it.
#[verifier::external_body]
pub(crate) fn receiver_try_recv<T>(receiver: &Receiver<T>) -> Result<T, TryRecvError> {
    receiver.try_recv()
}

/// A receiver with room for one item that was looked at and not yet taken.
#[verifier::reject_recursive_types(T)]
pub struct PeekableReceiver<T> {
    temp: Option<T>,
    receiver: Receiver<T>,
}

impl<T> PeekableReceiver<T> {
    /// The item looked at and held back, if any.
    pub closed spec fn held(&self) -> Option<T> {
        self.temp
    }

    /// The channel the items come from.
    pub closed spec fn source(&self) -> Receiver<T> {
        self.receiver
    }

    pub fn new(receiver: Receiver<T>) -> (r: Self)
        ensures
            r.held() is None,
            r.source() == receiver,
    {
        Self { temp: None, receiver }
    }

    /// The held-back item if there is one, else whatever the channel has.
    pub fn try_recv(&mut self) -> (r: Result<T, TryRecvError>)
        ensures
            old(self).held() matches Some(t) ==> r matches Ok(x) && x == t,
            final(self).held() is None,
            final(self).source() == old(self).source(),
    {
        if let Some(t) = self.temp.take() {
            return Ok(t);
        }
        receiver_try_recv(&self.receiver)
    }

    /// The underlying receiver, to wait on.
    pub fn receiver(&self) -> (r: &Receiver<T>)
        ensures
            *r == self.source(),
    {
        &self.receiver
    }

    /// Holds back what waiting on the receiver gave (`None` once the
    /// channel is closed), and shows it.
    pub fn store_peeked(&mut self, item: Option<T>) -> (r: &Option<T>)
        ensures
            final(self).held() == item,
            final(self).source() == old(self).source(),
            *r == item,
    {
        self.temp = item;
        &self.temp
    }
}

} // verus!
