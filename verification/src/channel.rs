//! The sending side of a player's outgoing channels.
//!
//! The tick loop hands every message for a player to an [`Outbox`]; the
//! player's connection task takes the messages from the other end of the
//! channel and writes them to the transport. An outbox never waits: a
//! message that the channel does not take at once is refused.

use crate::sender::{try_send, Offer};
use flume::Sender;
use vstd::prelude::*;

verus! {

/// Why a channel refused a message.
#[derive(Clone, Copy, Debug, PartialEq, Eq, Structural)]
pub enum SendFailure {
    /// The channel is bounded and holds as many messages as it may.
    Full,
    /// Nobody is left to receive.
    Disconnected,
}

/// The sending side of one outgoing channel, together with the record of
/// what the channel has taken through it.
pub struct Outbox {
    tx: Sender<Vec<u8>>,
    accepted: Ghost<Seq<Seq<u8>>>,
}

impl Outbox {
    /// The messages that the channel has taken through this outbox, oldest
    /// first. The channel hands them to its receiver in this order.
    pub closed spec fn view(&self) -> Seq<Seq<u8>> {
        self.accepted@
    }

    /// The sending handle of the channel.
    pub closed spec fn channel(&self) -> Sender<Vec<u8>> {
        self.tx
    }

    /// An outbox on `tx` through which nothing was sent yet.
    pub fn new(tx: Sender<Vec<u8>>) -> (outbox: Outbox)
        ensures
            outbox.channel() == tx,
            outbox@ == Seq::<Seq<u8>>::empty(),
    {
        Outbox { tx, accepted: Ghost(Seq::empty()) }
    }

    /// Offers `msg` to the channel, without waiting. Whether the channel
    /// takes it is the channel's to say: it refuses when it is bounded and
    /// full, and when nobody is left to receive. A message that is taken
    /// goes behind all earlier ones; one that is refused leaves no trace.
    pub fn push(&mut self, msg: Vec<u8>) -> (r: Result<(), SendFailure>)
        ensures
            final(self).channel() == old(self).channel(),
            final(self)@ == sent(old(self)@, msg@, r),
    {
        let offer = try_send(&self.tx, msg);
        self.settle(offer)
    }

    /// Keeps the record after the channel has answered an offer, and passes
    /// the answer on.
    fn settle(&mut self, offer: Offer) -> (r: Result<(), SendFailure>)
        requires
            offer.channel() == old(self).channel(),
        ensures
            r == offer.outcome(),
            final(self).channel() == old(self).channel(),
            final(self)@ == sent(old(self)@, offer.msg(), offer.outcome()),
    {
        let outcome = offer.outcome();
        if outcome.is_ok() {
            proof {
                self.accepted@ = self.accepted@.push(offer.msg());
            }
        }
        outcome
    }
}

/// The record of an outbox that held `before` after `msg` was offered with
/// outcome `r`.
pub open spec fn sent(before: Seq<Seq<u8>>, msg: Seq<u8>, r: Result<(), SendFailure>) -> Seq<
    Seq<u8>,
> {
    if r is Ok {
        before.push(msg)
    } else {
        before
    }
}

} // verus!
