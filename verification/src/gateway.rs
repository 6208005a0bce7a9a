//! The Nostr gateway's connection: its states, what moves it from one to
//! the next, and the subscription it installs.

use crate::decimal::{decimal_digits, decimal_text};
use crate::envelope::KIND_BROADCAST;
use vstd::prelude::*;
use vstd::string::*;

verus! {

/// Seconds to wait after an error before connecting again. The same after
/// every error.
pub const RECONNECT_DELAY_SECONDS: u64 = 5;

/// Where the connection to the Nostr relay stands.
#[derive(Debug, Clone, Copy, PartialEq, Eq, Structural)]
pub enum GatewayState {
    Disconnected,
    Connecting,
    Subscribing,
    Live,
    Closed,
}

/// What happened to the connection.
#[derive(Debug, Clone, Copy, PartialEq, Eq, Structural)]
pub enum GatewayEvent {
    /// The process starts the gateway.
    Start,
    /// The WebSocket handshake succeeded.
    Connected,
    /// The subscription request was sent.
    Subscribed,
    /// Connecting, subscribing or the live connection failed.
    Failed,
    /// The process shuts the gateway down.
    Shutdown,
}

/// What the caller is to do next.
#[derive(Debug, Clone, Copy, PartialEq, Eq, Structural)]
pub enum GatewayAction {
    /// Nothing.
    Idle,
    /// Open the WebSocket now.
    Connect,
    /// Send the subscription request.
    Subscribe,
    /// Wait for the given number of seconds, then open the WebSocket.
    ConnectAfter(u64),
    /// Close the WebSocket.
    Close,
}

/// The state that follows an event.
pub open spec fn next_state(state: GatewayState, event: GatewayEvent) -> GatewayState {
    match (state, event) {
        (GatewayState::Closed, _) => GatewayState::Closed,
        (_, GatewayEvent::Shutdown) => GatewayState::Closed,
        (GatewayState::Disconnected, GatewayEvent::Start) => GatewayState::Connecting,
        (GatewayState::Connecting, GatewayEvent::Connected) => GatewayState::Subscribing,
        (GatewayState::Subscribing, GatewayEvent::Subscribed) => GatewayState::Live,
        (GatewayState::Connecting, GatewayEvent::Failed) => GatewayState::Connecting,
        (GatewayState::Subscribing, GatewayEvent::Failed) => GatewayState::Connecting,
        (GatewayState::Live, GatewayEvent::Failed) => GatewayState::Connecting,
        (other, _) => other,
    }
}

/// What the caller is to do on an event.
pub open spec fn next_action(state: GatewayState, event: GatewayEvent) -> GatewayAction {
    match (state, event) {
        (GatewayState::Closed, _) => GatewayAction::Idle,
        (_, GatewayEvent::Shutdown) => GatewayAction::Close,
        (GatewayState::Disconnected, GatewayEvent::Start) => GatewayAction::Connect,
        (GatewayState::Connecting, GatewayEvent::Connected) => GatewayAction::Subscribe,
        (GatewayState::Connecting, GatewayEvent::Failed) => GatewayAction::ConnectAfter(
            RECONNECT_DELAY_SECONDS,
        ),
        (GatewayState::Subscribing, GatewayEvent::Failed) => GatewayAction::ConnectAfter(
            RECONNECT_DELAY_SECONDS,
        ),
        (GatewayState::Live, GatewayEvent::Failed) => GatewayAction::ConnectAfter(
            RECONNECT_DELAY_SECONDS,
        ),
        _ => GatewayAction::Idle,
    }
}

/// The filter of the gateway's subscription.
#[derive(Debug, Clone)]
pub struct SubscriptionFilter {
    /// The event kinds asked for.
    pub kinds: Vec<u16>,
    /// The values of the `t` tag asked for.
    pub hashtags: Vec<String>,
    /// Only events created at or after this time, in unix seconds.
    pub since: u64,
}

/// The gateway: this relay's id, the time the process started, and the
/// state of the connection.
pub struct Gateway {
    relay_id: u16,
    since: u64,
    state: GatewayState,
}

impl Gateway {
    /// This relay's id.
    pub closed spec fn relay_id(&self) -> u16 {
        self.relay_id
    }

    /// The time the process started, in unix seconds.
    pub closed spec fn since(&self) -> u64 {
        self.since
    }

    /// The state of the connection.
    pub closed spec fn state(&self) -> GatewayState {
        self.state
    }

    /// A gateway that is not connected yet. `process_start` is the time in
    /// unix seconds at which the process started; every subscription of
    /// this gateway asks for events since then.
    pub fn new(relay_id: u16, process_start: u64) -> (gateway: Gateway)
        ensures
            gateway.relay_id() == relay_id,
            gateway.since() == process_start,
            gateway.state() == GatewayState::Disconnected,
    {
        Gateway { relay_id, since: process_start, state: GatewayState::Disconnected }
    }

    /// The state the connection is in.
    pub fn current_state(&self) -> (state: GatewayState)
        ensures
            state == self.state(),
    {
        self.state
    }

    /// Takes an event and says what to do next. Neither the relay's id nor
    /// the start time ever changes.
    pub fn step(&mut self, event: GatewayEvent) -> (action: GatewayAction)
        ensures
            final(self).state() == next_state(old(self).state(), event),
            action == next_action(old(self).state(), event),
            final(self).relay_id() == old(self).relay_id(),
            final(self).since() == old(self).since(),
    {
        let (state, action) = match (self.state, event) {
            (GatewayState::Closed, _) => (GatewayState::Closed, GatewayAction::Idle),
            (_, GatewayEvent::Shutdown) => (GatewayState::Closed, GatewayAction::Close),
            (GatewayState::Disconnected, GatewayEvent::Start) => (
                GatewayState::Connecting,
                GatewayAction::Connect,
            ),
            (GatewayState::Connecting, GatewayEvent::Connected) => (
                GatewayState::Subscribing,
                GatewayAction::Subscribe,
            ),
            (GatewayState::Subscribing, GatewayEvent::Subscribed) => (
                GatewayState::Live,
                GatewayAction::Idle,
            ),
            (GatewayState::Connecting, GatewayEvent::Failed) => (
                GatewayState::Connecting,
                GatewayAction::ConnectAfter(RECONNECT_DELAY_SECONDS),
            ),
            (GatewayState::Subscribing, GatewayEvent::Failed) => (
                GatewayState::Connecting,
                GatewayAction::ConnectAfter(RECONNECT_DELAY_SECONDS),
            ),
            (GatewayState::Live, GatewayEvent::Failed) => (
                GatewayState::Connecting,
                GatewayAction::ConnectAfter(RECONNECT_DELAY_SECONDS),
            ),
            (other, _) => (other, GatewayAction::Idle),
        };
        self.state = state;
        action
    }

    /// The label of this gateway's subscription: `tx_relay_` and the
    /// relay's id.
    pub fn subscription_id(&self) -> (label: String)
        ensures
            label@ == "tx_relay_"@ + decimal_digits(self.relay_id() as nat),
    {
        let mut label = String::from_str("tx_relay_");
        let id = decimal_text(self.relay_id as u64);
        label.append(id.as_str());
        label
    }

    /// The filter of this gateway's subscription: transaction broadcasts
    /// tagged `bitcoin` and `transaction`, since the process started.
    pub fn filter(&self) -> (filter: SubscriptionFilter)
        ensures
            filter.kinds@ == seq![KIND_BROADCAST],
            filter.hashtags@.len() == 2,
            filter.hashtags@[0]@ == "bitcoin"@,
            filter.hashtags@[1]@ == "transaction"@,
            filter.since == self.since(),
    {
        let mut kinds: Vec<u16> = Vec::new();
        kinds.push(KIND_BROADCAST);
        let mut hashtags: Vec<String> = Vec::new();
        hashtags.push(String::from_str("bitcoin"));
        hashtags.push(String::from_str("transaction"));
        SubscriptionFilter { kinds, hashtags, since: self.since }
    }
}

/// Once closed, the gateway stays closed and asks for nothing.
pub proof fn closed_is_final(event: GatewayEvent)
    ensures
        next_state(GatewayState::Closed, event) == GatewayState::Closed,
        next_action(GatewayState::Closed, event) == GatewayAction::Idle,
{
}

/// The gateway closes on shutdown and on nothing else.
pub proof fn closes_only_on_shutdown(state: GatewayState, event: GatewayEvent)
    requires
        state != GatewayState::Closed,
    ensures
        next_state(state, event) == GatewayState::Closed <==> event == GatewayEvent::Shutdown,
{
}

/// An error while connecting, subscribing or live leads back to connecting
/// after the constant delay.
pub proof fn failure_reconnects_after_delay(state: GatewayState)
    requires
        state == GatewayState::Connecting || state == GatewayState::Subscribing || state
            == GatewayState::Live,
    ensures
        next_state(state, GatewayEvent::Failed) == GatewayState::Connecting,
        next_action(state, GatewayEvent::Failed) == GatewayAction::ConnectAfter(
            RECONNECT_DELAY_SECONDS,
        ),
{
}

/// The connection becomes live only by sending the subscription request.
pub proof fn live_only_after_subscribing(state: GatewayState, event: GatewayEvent)
    requires
        state != GatewayState::Live,
        next_state(state, event) == GatewayState::Live,
    ensures
        state == GatewayState::Subscribing,
        event == GatewayEvent::Subscribed,
{
}

} // verus!
