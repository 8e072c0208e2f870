//! The bus gateway: the connection life cycle as a state machine from event to
//! next state and action, the topics it uses, and the routing of inbound messages.
use vstd::prelude::*;
use crate::status::{DeviceError, StatusError};
use crate::text::{has_prefix, normalize_topic_prefix, normalized_prefix, starts_with, str_eq, topic};

verus! {

/// How long to wait before connecting again after a failed attempt or a lost connection.
pub const RECONNECT_BACKOFF_MILLIS: u64 = 2500;

/// The state of the bus connection.
#[derive(Clone, Copy, Debug, PartialEq, Eq, Structural)]
pub enum ConnectionState {
    Disconnected,
    Connecting,
    Connected,
    Reconnecting,
}

/// What the bus client, or the wait between attempts, reports to the gateway.
#[derive(Clone, Copy, Debug, PartialEq, Eq, Structural)]
pub enum GatewayEvent {
    /// The gateway is started.
    Start,
    /// A connection attempt succeeded.
    ConnectSucceeded,
    /// A connection attempt failed.
    ConnectFailed,
    /// An established connection was lost or closed by the broker.
    ConnectionLost,
    /// The wait before the next attempt is over.
    BackoffElapsed,
}

/// What the gateway asks the bus client to do next.
#[derive(Clone, Debug, PartialEq, Eq)]
pub enum GatewayAction {
    /// Nothing: the event does not apply in the current state.
    Nothing,
    /// Make the first connection attempt.
    Connect,
    /// Make a new connection attempt with the same client.
    Reconnect,
    /// Subscribe to the topic pattern.
    Subscribe(String),
    /// Wait this many milliseconds, then report that the wait is over.
    Backoff(u64),
}

/// A gateway action with its topic as characters.
pub enum GatewayActionView {
    Nothing,
    Connect,
    Reconnect,
    Subscribe(Seq<char>),
    Backoff(u64),
}

impl View for GatewayAction {
    type V = GatewayActionView;

    open spec fn view(&self) -> GatewayActionView {
        match self {
            GatewayAction::Nothing => GatewayActionView::Nothing,
            GatewayAction::Connect => GatewayActionView::Connect,
            GatewayAction::Reconnect => GatewayActionView::Reconnect,
            GatewayAction::Subscribe(t) => GatewayActionView::Subscribe(t@),
            GatewayAction::Backoff(ms) => GatewayActionView::Backoff(*ms),
        }
    }
}

/// The gateway as a value: its topic prefix, the connection state and the
/// subscription currently held on the broker.
pub struct GatewayView {
    pub prefix: Seq<char>,
    pub state: ConnectionState,
    pub subscription: Option<Seq<char>>,
}

/// The topic pattern that covers every topic under `prefix`.
pub open spec fn subscription_topic_of(prefix: Seq<char>) -> Seq<char> {
    prefix + "#"@
}

/// The topic that status reports are published to.
pub open spec fn status_topic_of(prefix: Seq<char>) -> Seq<char> {
    prefix + "status"@
}

impl GatewayView {
    /// The prefix ends with `/`, and the only subscription ever held is the
    /// pattern under the prefix, held only while connected.
    pub open spec fn wf(self) -> bool {
        &&& self.prefix.len() > 0
        &&& self.prefix.last() == '/'
        &&& match self.subscription {
            None => true,
            Some(t) => t == subscription_topic_of(self.prefix) && self.state
                == ConnectionState::Connected,
        }
    }

    /// The same gateway in state `state` holding `subscription`.
    pub open spec fn with(self, state: ConnectionState, subscription: Option<Seq<char>>) -> GatewayView {
        GatewayView { prefix: self.prefix, state, subscription }
    }
}

/// The next gateway and the action it asks for when `event` comes in state `g`.
pub open spec fn step_spec(g: GatewayView, event: GatewayEvent) -> (GatewayView, GatewayActionView) {
    match (g.state, event) {
        (ConnectionState::Disconnected, GatewayEvent::Start) => (
            g.with(ConnectionState::Connecting, g.subscription),
            GatewayActionView::Connect,
        ),
        (ConnectionState::Connecting, GatewayEvent::ConnectSucceeded) => (
            g.with(ConnectionState::Connected, Some(subscription_topic_of(g.prefix))),
            GatewayActionView::Subscribe(subscription_topic_of(g.prefix)),
        ),
        (ConnectionState::Connecting, GatewayEvent::ConnectFailed) => (
            g.with(ConnectionState::Reconnecting, g.subscription),
            GatewayActionView::Backoff(RECONNECT_BACKOFF_MILLIS),
        ),
        (ConnectionState::Connected, GatewayEvent::ConnectionLost) => (
            g.with(ConnectionState::Reconnecting, None),
            GatewayActionView::Backoff(RECONNECT_BACKOFF_MILLIS),
        ),
        (ConnectionState::Reconnecting, GatewayEvent::BackoffElapsed) => (
            g.with(ConnectionState::Connecting, g.subscription),
            GatewayActionView::Reconnect,
        ),
        _ => (g, GatewayActionView::Nothing),
    }
}

/// Every step keeps the prefix and the gateway's invariant.
pub proof fn lemma_step_keeps_wf(g: GatewayView, event: GatewayEvent)
    requires
        g.wf(),
    ensures
        step_spec(g, event).0.wf(),
        step_spec(g, event).0.prefix == g.prefix,
{
}

/// Only a successful connection attempt subscribes, and it subscribes exactly
/// to the pattern under the prefix; the gateway then holds that one
/// subscription and no other.
pub proof fn lemma_subscribe_only_on_connect(g: GatewayView, event: GatewayEvent)
    requires
        g.wf(),
    ensures
        step_spec(g, event).1 is Subscribe ==> {
            &&& event == GatewayEvent::ConnectSucceeded
            &&& g.state == ConnectionState::Connecting
            &&& step_spec(g, event).1 == GatewayActionView::Subscribe(subscription_topic_of(g.prefix))
            &&& step_spec(g, event).0.subscription == Some(subscription_topic_of(g.prefix))
        },
{
}

/// After a lost connection, a wait and a successful new attempt, the gateway
/// has subscribed once more to `{prefix}#`, exactly once, and holds that
/// single subscription again.
pub proof fn lemma_reconnect_resubscribes_once(g: GatewayView)
    requires
        g.wf(),
        g.state == ConnectionState::Connected,
    ensures
        ({
            let (g1, a1) = step_spec(g, GatewayEvent::ConnectionLost);
            let (g2, a2) = step_spec(g1, GatewayEvent::BackoffElapsed);
            let (g3, a3) = step_spec(g2, GatewayEvent::ConnectSucceeded);
            &&& a1 == GatewayActionView::Backoff(RECONNECT_BACKOFF_MILLIS)
            &&& a2 == GatewayActionView::Reconnect
            &&& a3 == GatewayActionView::Subscribe(subscription_topic_of(g.prefix))
            &&& g1.subscription is None
            &&& g3.state == ConnectionState::Connected
            &&& g3.subscription == Some(subscription_topic_of(g.prefix))
            &&& g3.prefix == g.prefix
        }),
{
}

/// A prefix is used on the bus with a `/` appended when it lacks one: the
/// normalised prefix ends with `/`, keeps a prefix that already does, and
/// normalising twice changes nothing.
pub proof fn lemma_prefix_normalized(p: Seq<char>)
    ensures
        normalized_prefix(p).len() > 0,
        normalized_prefix(p).last() == '/',
        p.len() > 0 && p.last() == '/' ==> normalized_prefix(p) == p,
        !(p.len() > 0 && p.last() == '/') ==> normalized_prefix(p) == p + seq!['/'],
        normalized_prefix(normalized_prefix(p)) == normalized_prefix(p),
{
    assert(p.push('/') =~= p + seq!['/']);
}

/// What an inbound message asks for.
#[derive(Clone, Copy, Debug, PartialEq, Eq, Structural)]
pub enum InboundCommand {
    /// Transmit the signal of a button; the payload names it.
    Transmit,
    /// Publish a status report now; the payload is ignored.
    RequestStatus,
}

/// Why an inbound message was discarded.
#[derive(Clone, Debug, PartialEq, Eq)]
pub enum MessageError {
    /// The topic does not begin with the prefix, given here.
    WrongPrefix(String),
    /// The topic, given here, is under the prefix but names no command.
    UnknownTopic(String),
    /// The payload of a transmit request could not be read.
    InvalidPayload(String),
    /// The controller failed to transmit.
    Device(DeviceError),
    /// The requested status report failed.
    Status(StatusError),
}

/// The command named by an inbound topic: the part after the prefix is `tx`
/// or `request-status`.
pub open spec fn inbound_command(prefix: Seq<char>, topic: Seq<char>) -> Option<InboundCommand> {
    if has_prefix(topic, prefix) {
        let suffix = topic.subrange(prefix.len() as int, topic.len() as int);
        if suffix == "tx"@ {
            Some(InboundCommand::Transmit)
        } else if suffix == "request-status"@ {
            Some(InboundCommand::RequestStatus)
        } else {
            None
        }
    } else {
        None
    }
}

/// The result of a transmit request once the controller has answered.
pub fn transmit_outcome(controller: Result<(), DeviceError>) -> (r: Result<(), MessageError>)
    ensures
        match controller {
            Ok(_) => r == Ok::<(), MessageError>(()),
            Err(e) => r == Err::<(), MessageError>(MessageError::Device(e)),
        },
{
    match controller {
        Ok(_) => Ok(()),
        Err(e) => Err(MessageError::Device(e)),
    }
}

/// The bus gateway's own state.
pub struct Gateway {
    topic_prefix: String,
    state: ConnectionState,
    subscription: Option<String>,
}

impl View for Gateway {
    type V = GatewayView;

    closed spec fn view(&self) -> GatewayView {
        GatewayView {
            prefix: self.topic_prefix@,
            state: self.state,
            subscription: match self.subscription {
                Some(t) => Some(t@),
                None => None,
            },
        }
    }
}

impl Gateway {
    #[verifier::type_invariant]
    spec fn inv(&self) -> bool {
        self@.wf()
    }

    /// A disconnected gateway whose topics live under `prefix`, with `/`
    /// appended when it does not end with one.
    pub fn new(prefix: &str) -> (r: Gateway)
        ensures
            r@ == (GatewayView {
                prefix: normalized_prefix(prefix@),
                state: ConnectionState::Disconnected,
                subscription: None,
            }),
    {
        Gateway {
            topic_prefix: normalize_topic_prefix(prefix),
            state: ConnectionState::Disconnected,
            subscription: None,
        }
    }

    /// The topic prefix, which ends with `/`.
    pub fn topic_prefix(&self) -> (r: &str)
        ensures
            r@ == self@.prefix,
            r@.len() > 0,
            r@.last() == '/',
    {
        proof {
            use_type_invariant(self);
        }
        self.topic_prefix.as_str()
    }

    /// The state of the connection.
    pub fn state(&self) -> (r: ConnectionState)
        ensures
            r == self@.state,
    {
        self.state
    }

    /// The subscription held on the broker, if any.
    pub fn subscription(&self) -> (r: Option<&String>)
        ensures
            match r {
                Some(t) => self@.subscription == Some(t@),
                None => self@.subscription is None,
            },
    {
        self.subscription.as_ref()
    }

    /// The pattern `{prefix}#` that covers every inbound topic.
    pub fn subscription_topic(&self) -> (r: String)
        ensures
            r@ == subscription_topic_of(self@.prefix),
    {
        topic(self.topic_prefix.as_str(), "#")
    }

    /// The topic `{prefix}status` that status reports go to.
    pub fn status_topic(&self) -> (r: String)
        ensures
            r@ == status_topic_of(self@.prefix),
    {
        topic(self.topic_prefix.as_str(), "status")
    }

    /// Takes the gateway to its next state on `event` and returns what the
    /// bus client must do. There is no final state: failures lead to a wait
    /// and a new attempt, as often as they occur.
    pub fn step(&mut self, event: GatewayEvent) -> (r: GatewayAction)
        ensures
            final(self)@ == step_spec(old(self)@, event).0,
            r@ == step_spec(old(self)@, event).1,
    {
        proof {
            use_type_invariant(&*self);
        }
        match (self.state, event) {
            (ConnectionState::Disconnected, GatewayEvent::Start) => {
                self.state = ConnectionState::Connecting;
                GatewayAction::Connect
            },
            (ConnectionState::Connecting, GatewayEvent::ConnectSucceeded) => {
                let t = self.subscription_topic();
                self.state = ConnectionState::Connected;
                self.subscription = Some(t.clone());
                GatewayAction::Subscribe(t)
            },
            (ConnectionState::Connecting, GatewayEvent::ConnectFailed) => {
                self.state = ConnectionState::Reconnecting;
                GatewayAction::Backoff(RECONNECT_BACKOFF_MILLIS)
            },
            (ConnectionState::Connected, GatewayEvent::ConnectionLost) => {
                self.subscription = None;
                self.state = ConnectionState::Reconnecting;
                GatewayAction::Backoff(RECONNECT_BACKOFF_MILLIS)
            },
            (ConnectionState::Reconnecting, GatewayEvent::BackoffElapsed) => {
                self.state = ConnectionState::Connecting;
                GatewayAction::Reconnect
            },
            _ => GatewayAction::Nothing,
        }
    }

    /// Routes an inbound message by its topic: the topic must begin with the
    /// prefix, and the rest must name a command exactly.
    pub fn route(&self, topic: &str) -> (r: Result<InboundCommand, MessageError>)
        ensures
            match inbound_command(self@.prefix, topic@) {
                Some(c) => r == Ok::<InboundCommand, MessageError>(c),
                None => match r {
                    Err(MessageError::WrongPrefix(p)) => !has_prefix(topic@, self@.prefix) && p@
                        == self@.prefix,
                    Err(MessageError::UnknownTopic(t)) => has_prefix(topic@, self@.prefix) && t@
                        == topic@,
                    _ => false,
                },
            },
    {
        let prefix = self.topic_prefix.as_str();
        if !starts_with(topic, prefix) {
            return Err(MessageError::WrongPrefix(self.topic_prefix.clone()));
        }
        let suffix = topic.substring_char(prefix.unicode_len(), topic.unicode_len());
        if str_eq(suffix, "tx") {
            Ok(InboundCommand::Transmit)
        } else if str_eq(suffix, "request-status") {
            Ok(InboundCommand::RequestStatus)
        } else {
            Err(MessageError::UnknownTopic(String::from_str(topic)))
        }
    }
}

} // verus!
