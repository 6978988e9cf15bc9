//! Cancellation of the searches that are under way.
//!
//! The bus counts the signals that were published on it, and a subscription
//! remembers the count at which it was made. A subscriber has been told to
//! stop as soon as the bus has counted past that: it never needs to know more
//! than that at least one signal came after it subscribed, so the bus keeps no
//! list of subscribers and a subscription that is dropped leaves nothing
//! behind.

use vstd::prelude::*;

verus! {

/// The count of a bus after one more signal. The count stops at the largest
/// number that the bus can hold; a bus that has reached it hands out no
/// further subscriptions, so that a signal still reaches every subscriber.
pub open spec fn signalled(signals: nat) -> nat {
    if signals < u64::MAX {
        signals + 1
    } else {
        signals
    }
}

/// Whether a subscription made at the count `joined` has been told to stop by
/// the time the bus has counted `signals`.
pub open spec fn notified(signals: nat, joined: nat) -> bool {
    joined < signals
}

/// Whether a bus that has counted `signals` can have handed out a
/// subscription made at the count `joined`.
pub open spec fn issued(signals: nat, joined: nat) -> bool {
    joined <= signals && joined < u64::MAX
}

/// A subscriber's handle. It cannot be copied: whoever settles a search gives
/// the handle up.
#[derive(Debug, PartialEq, Eq)]
pub struct Subscription {
    joined: u64,
}

impl View for Subscription {
    type V = nat;

    /// The count of the bus at the time the subscription was made.
    closed spec fn view(&self) -> nat {
        self.joined as nat
    }
}

/// The one-to-many signal that tells every search under way to stop.
#[derive(Debug)]
pub struct CancellationBus {
    signals: u64,
}

impl View for CancellationBus {
    type V = nat;

    /// The number of signals published so far.
    closed spec fn view(&self) -> nat {
        self.signals as nat
    }
}

impl CancellationBus {
    /// A bus on which nothing was published yet.
    pub fn new() -> (bus: Self)
        ensures
            bus@ == 0,
    {
        CancellationBus { signals: 0 }
    }

    /// A handle for one search. It has missed every signal published so far
    /// and is reached by the next one. A bus that has counted as far as it
    /// can hands out none.
    pub fn subscribe(&self) -> (handle: Option<Subscription>)
        ensures
            handle is Some <==> self@ < u64::MAX,
            handle matches Some(subscription) ==> subscription@ == self@,
    {
        if self.signals < u64::MAX {
            Some(Subscription { joined: self.signals })
        } else {
            None
        }
    }

    /// Tells every subscriber to stop.
    pub fn signal(&mut self)
        ensures
            final(self)@ == signalled(old(self)@),
    {
        if self.signals < u64::MAX {
            self.signals = self.signals + 1;
        }
    }

    /// Whether a signal was published since `subscription` was made.
    pub fn is_cancelled(&self, subscription: &Subscription) -> (cancelled: bool)
        ensures
            cancelled == notified(self@, subscription@),
    {
        subscription.joined < self.signals
    }
}

/// A subscription has not been told to stop at the moment it is made.
pub proof fn lemma_fresh_subscription_is_live(signals: nat)
    ensures
        !notified(signals, signals),
{
}

/// One signal reaches every subscription that the bus has handed out.
pub proof fn lemma_signal_reaches_all(signals: nat, joined: nat)
    requires
        issued(signals, joined),
    ensures
        notified(signalled(signals), joined),
        issued(signalled(signals), joined),
{
}

/// A subscription that was told to stop stays so, whatever is published
/// later.
pub proof fn lemma_notified_is_final(signals: nat, joined: nat)
    requires
        notified(signals, joined),
    ensures
        notified(signalled(signals), joined),
{
}

} // verus!
