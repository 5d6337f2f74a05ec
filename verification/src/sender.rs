//! Offering a message to a channel.

use crate::channel::SendFailure;
use flume::Sender;
use vstd::prelude::*;

verus! {

/// `Sender` of flume, the sending handle of a channel. Nothing is known of
/// what is inside.
#[verifier::external_type_specification]
#[verifier::external_body]
#[verifier::reject_recursive_types(T)]
pub struct ExSender<T>(flume::Sender<T>);

/// Receipt for one message offered to a channel: which channel, which
/// message, and what the channel answered.
pub struct Offer {
    channel: Ghost<Sender<Vec<u8>>>,
    msg: Ghost<Seq<u8>>,
    outcome: Result<(), SendFailure>,
}

impl Offer {
    /// The sending handle that the message was offered to.
    pub closed spec fn channel(&self) -> Sender<Vec<u8>> {
        self.channel@
    }

    /// The bytes of the message that was offered.
    pub closed spec fn msg(&self) -> Seq<u8> {
        self.msg@
    }

    /// What the channel answered.
    pub closed spec fn spec_outcome(&self) -> Result<(), SendFailure> {
        self.outcome
    }

    /// What the channel answered.
    #[verifier::when_used_as_spec(spec_outcome)]
    pub fn outcome(&self) -> (r: Result<(), SendFailure>)
        ensures
            r == self.spec_outcome(),
    {
        self.outcome
    }
}

/// `Sender::try_send` of flume: hands `msg` to the channel without waiting.
/// Whether the channel takes it depends on the receiving side, so nothing is
/// promised of the answer. The receipt names the handle and the message that
/// the call was made with.
#[verifier::external_body]
pub(crate) fn try_send(tx: &Sender<Vec<u8>>, msg: Vec<u8>) -> (offer: Offer)
    ensures
        offer.channel() == *tx,
        offer.msg() == msg@,
{
    let ghost bytes = msg@;
    let outcome = match tx.try_send(msg) {
        Ok(()) => Ok(()),
        Err(flume::TrySendError::Full(_)) => Err(SendFailure::Full),
        Err(flume::TrySendError::Disconnected(_)) => Err(SendFailure::Disconnected),
    };
    Offer { channel: Ghost(*tx), msg: Ghost(bytes), outcome }
}

} // verus!
