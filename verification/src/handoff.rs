//! Handing a value to the sending half of a oneshot channel.
//!
//! A [`Handoff`] is made only by [`sender_send`], in this module: holding one
//! shows that a value was given to a sender.

use vstd::prelude::*;
use futures_channel::oneshot::Sender;

verus! {

#[verifier::external_type_specification]
#[verifier::external_body]
#[verifier::reject_recursive_types(T)]
pub struct ExOneshotSender<T>(Sender<T>);

/// The record of one value given to a oneshot sender: the value offered, and
/// the value the sender handed back when its receiver was already gone.
pub struct Handoff<T> {
    offered: Ghost<T>,
    refused: Option<T>,
}

impl<T> Handoff<T> {
    /// The value that was given to the sender.
    pub closed spec fn offered(self) -> T {
        self.offered@
    }

    /// The value the sender handed back because nobody was receiving, if it
    /// did.
    pub closed spec fn refused(self) -> Option<T> {
        self.refused
    }

    /// Takes back the value that the sender refused, if it refused it.
    pub fn handed_back(self) -> (r: Option<T>)
        ensures
            r == self.refused(),
    {
        self.refused
    }
}

/// `futures_channel::oneshot::Sender::send`: completes the channel with
/// `value`. When the receiver is already gone the value is handed back,
/// unchanged, as `Err`. Whether the receiver is still there is not known here,
/// so the contract does not say which of the two happens; it says that the
/// value given to the sender is `value`.
#[verifier::external_body]
pub(crate) fn sender_send<T>(sender: Sender<T>, value: T) -> (r: Handoff<T>)
    ensures
        r.offered() == value,
        r.refused() matches Some(v) ==> v == value,
{
    let offered = Ghost(value);
    Handoff { offered, refused: sender.send(value).err() }
}

} // verus!
