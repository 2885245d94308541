//! The broadcast fabric: one bounded, lossy channel of change events for each
//! service name, made when the name is first registered or subscribed and kept
//! for as long as the hub lives.

use crate::text::{compose_lag_message, lag_message};
use crate::types::Service;
use dashmap::DashMap;
use tokio::sync::broadcast::error::TryRecvError;
use tokio::sync::broadcast::{channel, Receiver, Sender};
use vstd::prelude::*;

verus! {

#[verifier::external_type_specification]
#[verifier::external_body]
#[verifier::reject_recursive_types(T)]
pub struct ExSender<T>(Sender<T>);

#[verifier::external_type_specification]
#[verifier::external_body]
#[verifier::reject_recursive_types(T)]
pub struct ExReceiver<T>(Receiver<T>);

/// The sending half of each service's channel, by service name.
pub type PubSub = DashMap<String, Sender<Service>>;

/// How many events each channel was made to hold, by service name.
pub type Limits = Map<Seq<char>, nat>;

/// The channels that a fabric holds: for each service name that has one, the
/// number of events that its channel was made to hold.
pub uninterp spec fn channel_limits(channels: PubSub) -> Map<Seq<char>, nat>;

/// No channel at all.
pub open spec fn no_channels() -> Limits {
    Map::empty()
}

/// The channels after `name` was given one of `capacity` events, if it had none.
pub open spec fn with_channel(limits: Limits, name: Seq<char>, capacity: nat) -> Limits {
    if limits.dom().contains(name) {
        limits
    } else {
        limits.insert(name, capacity)
    }
}

/// What became of an event that was handed to the fabric.
#[derive(Clone, Copy, Debug, PartialEq, Eq, Structural)]
pub enum Delivery {
    /// The service has no channel; nothing was sent.
    NoChannel,
    /// The event was sent and nobody listens on the channel.
    NoReceivers,
    /// The event was sent to this many subscribers.
    Delivered(usize),
}

/// What a subscriber finds when it looks for the next event.
#[derive(Debug)]
pub enum Polled {
    /// The oldest event that the subscriber has not seen.
    Event(Service),
    /// Nothing was published since the last event.
    Empty,
    /// The channel is gone.
    Closed,
    /// This many events were dropped before the subscriber saw them.
    Lagged(u64),
}

/// An error that a subscriber reads in its stream, between events.
#[derive(Debug)]
pub struct InternalError {
    pub message: String,
}

/// `DashMap::new`: a fabric without channels.
#[verifier::external_body]
fn channels_new() -> (channels: PubSub)
    ensures
        channel_limits(channels) == no_channels(),
{
    DashMap::new()
}

/// `DashMap::entry` and `Entry::or_insert` with the sending half of a new
/// `broadcast::channel`: a name that has a channel keeps it, a name that has none
/// gets one made for `capacity` events. `channel` panics on a capacity of 0 or
/// above `usize::MAX / 2`.
#[verifier::external_body]
fn channels_ensure(channels: &mut PubSub, name: String, capacity: usize)
    requires
        0 < capacity <= usize::MAX / 2,
    ensures
        channel_limits(*final(channels)) == with_channel(
            channel_limits(*old(channels)),
            name@,
            capacity as nat,
        ),
{
    channels.entry(name).or_insert(channel(capacity).0);
}

/// `DashMap::get` and `Sender::send`: the event goes to the channel of `name`, if
/// there is one. `send` counts the receivers that are subscribed at that moment
/// and fails when there is none.
#[verifier::external_body]
fn channels_send(channels: &PubSub, name: &String, event: Service) -> (delivery: Delivery)
    ensures
        delivery is NoChannel == !channel_limits(*channels).dom().contains(name@),
        delivery matches Delivery::Delivered(receivers) ==> receivers > 0,
{
    match channels.get(name).map(|sender| sender.send(event)) {
        None => Delivery::NoChannel,
        Some(Err(_)) => Delivery::NoReceivers,
        Some(Ok(receivers)) => Delivery::Delivered(receivers),
    }
}

/// `DashMap::get` and `Sender::subscribe`: a new receiver on the channel of
/// `name`, if there is one. (`subscribe` panics at `usize::MAX / 4` receivers on
/// one channel, more than a process can hold.)
#[verifier::external_body]
fn channels_subscribe(channels: &PubSub, name: &String) -> (receiver: Option<Receiver<Service>>)
    ensures
        receiver is Some == channel_limits(*channels).dom().contains(name@),
{
    channels.get(name).map(|sender| sender.subscribe())
}

/// `Receiver::try_recv`: the next event, or why there is none. What comes back
/// depends on what was published and on how fast the subscriber reads.
#[verifier::external_body]
fn receiver_poll(receiver: &mut Receiver<Service>) -> (polled: Polled) {
    match receiver.try_recv() {
        Ok(event) => Polled::Event(event),
        Err(TryRecvError::Empty) => Polled::Empty,
        Err(TryRecvError::Closed) => Polled::Closed,
        Err(TryRecvError::Lagged(skipped)) => Polled::Lagged(skipped),
    }
}

/// The per-service channels of change events.
pub struct Fabric {
    channels: PubSub,
}

impl View for Fabric {
    type V = Limits;

    closed spec fn view(&self) -> Limits {
        channel_limits(self.channels)
    }
}

impl Fabric {
    pub fn new() -> (fabric: Fabric)
        ensures
            fabric@ == no_channels(),
    {
        Fabric { channels: channels_new() }
    }

    /// Makes the channel of `name`, for `capacity` events, unless it is there.
    pub fn ensure(&mut self, name: String, capacity: usize)
        requires
            0 < capacity <= usize::MAX / 2,
        ensures
            final(self)@ == with_channel(old(self)@, name@, capacity as nat),
    {
        channels_ensure(&mut self.channels, name, capacity);
    }

    /// Sends `event` on the channel of `name`. That nobody listens is no failure.
    pub fn publish(&self, name: &String, event: Service) -> (delivery: Delivery)
        ensures
            delivery is NoChannel == !self@.dom().contains(name@),
            delivery matches Delivery::Delivered(receivers) ==> receivers > 0,
    {
        channels_send(&self.channels, name, event)
    }

    /// A new subscription to the channel of `name`: it sees the events that are
    /// published from now on.
    pub fn subscribe(&self, name: &String) -> (subscription: Option<Subscription>)
        ensures
            subscription is Some == self@.dom().contains(name@),
            subscription matches Some(s) ==> s.service@ == name@,
    {
        match channels_subscribe(&self.channels, name) {
            Some(receiver) => Some(Subscription { service: name.clone(), receiver }),
            None => None,
        }
    }
}

/// One subscriber's place in the channel of one service.
pub struct Subscription {
    pub service: String,
    pub receiver: Receiver<Service>,
}

/// The item that a subscriber reads for what it found: an event as it is, a lag
/// as an error, and nothing where there was nothing.
pub open spec fn stream_item_of(polled: Polled) -> Option<Result<Service, Seq<char>>> {
    match polled {
        Polled::Event(event) => Some(Ok(event)),
        Polled::Lagged(skipped) => Some(Err(lag_message(skipped))),
        Polled::Empty => None,
        Polled::Closed => None,
    }
}

/// Turns what a subscriber found into the item that it reads.
pub fn stream_item(polled: Polled) -> (item: Option<Result<Service, InternalError>>)
    ensures
        match stream_item_of(polled) {
            Some(Ok(event)) => item == Some(Ok::<Service, InternalError>(event)),
            Some(Err(message)) => item matches Some(Err(e)) && e.message@ == message,
            None => item is None,
        },
{
    match polled {
        Polled::Event(event) => Some(Ok(event)),
        Polled::Lagged(skipped) => Some(Err(InternalError { message: compose_lag_message(skipped) })),
        Polled::Empty => None,
        Polled::Closed => None,
    }
}

impl Subscription {
    /// What the subscriber finds next, without waiting.
    pub fn poll(&mut self) -> (polled: Polled)
        ensures
            final(self).service == old(self).service,
    {
        receiver_poll(&mut self.receiver)
    }

    /// The next item of the subscriber's stream, without waiting: an event, or an
    /// error in its place where events were lost, after which the stream goes on.
    pub fn next_item(&mut self) -> (item: Option<Result<Service, InternalError>>)
        ensures
            final(self).service == old(self).service,
            item matches Some(Err(error)) ==> exists|skipped: u64|
                error.message@ == #[trigger] lag_message(skipped),
    {
        let polled = self.poll();
        let ghost found = polled;
        let item = stream_item(polled);
        assert(item matches Some(Err(error)) ==> found matches Polled::Lagged(skipped)
            && error.message@ == lag_message(skipped));
        item
    }
}

} // verus!
