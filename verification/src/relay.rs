//! The relay: one receiver, and one broker of every kind.
//!
//! A descriptor belongs to the first kind, in a fixed order, that accepts it;
//! the last kind of each side accepts every descriptor, so a descriptor is
//! never without a kind. Every message goes to every broker, in the same
//! fixed order, whether or not anything is attached to it.

use vstd::prelude::*;
use crate::broker::{Broker, StdoutBroker, UdpBroker, WebSocketBroker};
use crate::effect::{
    effect_views, setup_view, Effect, EffectView, Endpoint, Setup, SetupError, SetupView,
};
use crate::receiver::{
    plan_view, PlanView, ReceiverCreator, ReceiverPlan, StdinReceiverCreator, UdpReceiverCreator,
    WebSocketReceiverCreator,
};

verus! {

/// The kinds of destination, in the order in which they are tried.
#[derive(Clone, Copy, Debug, PartialEq, Eq, Structural)]
pub enum BrokerKind {
    /// Standard output.
    Console,
    /// A websocket listen address, served to every client that connects.
    FanOut,
    /// A datagram destination.
    Datagram,
}

/// The kinds of source, in the order in which they are tried.
#[derive(Clone, Copy, Debug, PartialEq, Eq, Structural)]
pub enum ReceiverKind {
    /// Standard input.
    LineSource,
    /// An outbound websocket connection.
    OutboundSocket,
    /// A datagram socket.
    Datagram,
}

impl BrokerKind {
    /// The place of the kind in the order of trial.
    pub open spec fn rank(self) -> int {
        match self {
            BrokerKind::Console => 0,
            BrokerKind::FanOut => 1,
            BrokerKind::Datagram => 2,
        }
    }

    /// Whether the broker of this kind accepts `descriptor`.
    pub open spec fn accepts(self, descriptor: Seq<char>) -> bool {
        match self {
            BrokerKind::Console => StdoutBroker::accepts(descriptor),
            BrokerKind::FanOut => WebSocketBroker::accepts(descriptor),
            BrokerKind::Datagram => UdpBroker::accepts(descriptor),
        }
    }

    /// Whether this is the first kind that accepts `descriptor`.
    pub open spec fn takes(self, descriptor: Seq<char>) -> bool {
        &&& self.accepts(descriptor)
        &&& forall|earlier: BrokerKind|
            earlier.rank() < self.rank() ==> !#[trigger] earlier.accepts(descriptor)
    }
}

impl ReceiverKind {
    /// The place of the kind in the order of trial.
    pub open spec fn rank(self) -> int {
        match self {
            ReceiverKind::LineSource => 0,
            ReceiverKind::OutboundSocket => 1,
            ReceiverKind::Datagram => 2,
        }
    }

    /// Whether the receiver creator of this kind accepts `descriptor`.
    pub open spec fn accepts(self, descriptor: Seq<char>) -> bool {
        match self {
            ReceiverKind::LineSource => StdinReceiverCreator::accepts(descriptor),
            ReceiverKind::OutboundSocket => WebSocketReceiverCreator::accepts(descriptor),
            ReceiverKind::Datagram => UdpReceiverCreator::accepts(descriptor),
        }
    }

    /// Whether this is the first kind that accepts `descriptor`.
    pub open spec fn takes(self, descriptor: Seq<char>) -> bool {
        &&& self.accepts(descriptor)
        &&& forall|earlier: ReceiverKind|
            earlier.rank() < self.rank() ==> !#[trigger] earlier.accepts(descriptor)
    }

    /// The transport that a receiver of this kind opens for `descriptor`.
    pub open spec fn plan(self, descriptor: Seq<char>) -> Result<PlanView, SetupError> {
        match self {
            ReceiverKind::LineSource => StdinReceiverCreator::plan(descriptor),
            ReceiverKind::OutboundSocket => WebSocketReceiverCreator::plan(descriptor),
            ReceiverKind::Datagram => UdpReceiverCreator::plan(descriptor),
        }
    }
}

/// The kind of destination that `descriptor` names.
pub open spec fn broker_kind_of(descriptor: Seq<char>) -> BrokerKind {
    if StdoutBroker::accepts(descriptor) {
        BrokerKind::Console
    } else if WebSocketBroker::accepts(descriptor) {
        BrokerKind::FanOut
    } else {
        BrokerKind::Datagram
    }
}

/// The kind of source that `descriptor` names.
pub open spec fn receiver_kind_of(descriptor: Seq<char>) -> ReceiverKind {
    if StdinReceiverCreator::accepts(descriptor) {
        ReceiverKind::LineSource
    } else if WebSocketReceiverCreator::accepts(descriptor) {
        ReceiverKind::OutboundSocket
    } else {
        ReceiverKind::Datagram
    }
}

/// Every destination descriptor belongs to exactly one kind of broker: the
/// first, in the order console, fan-out, datagram, that accepts it.
pub proof fn lemma_one_broker_kind(descriptor: Seq<char>)
    ensures
        forall|kind: BrokerKind|
            #[trigger] kind.takes(descriptor) <==> kind == broker_kind_of(descriptor),
{
    assert forall|kind: BrokerKind| #[trigger]
        kind.takes(descriptor) <==> kind == broker_kind_of(descriptor) by {
        let chosen = broker_kind_of(descriptor);
        if kind.takes(descriptor) {
            if kind.rank() < chosen.rank() {
                assert(kind.accepts(descriptor));
            } else if chosen.rank() < kind.rank() {
                assert(chosen.accepts(descriptor));
            }
        }
        if kind == chosen {
            assert forall|earlier: BrokerKind| earlier.rank() < kind.rank() implies !#[trigger]
                earlier.accepts(descriptor) by {}
        }
    }
}

/// Every source descriptor belongs to exactly one kind of receiver: the
/// first, in the order line source, outbound socket, datagram, that accepts
/// it.
pub proof fn lemma_one_receiver_kind(descriptor: Seq<char>)
    ensures
        forall|kind: ReceiverKind|
            #[trigger] kind.takes(descriptor) <==> kind == receiver_kind_of(descriptor),
{
    assert forall|kind: ReceiverKind| #[trigger]
        kind.takes(descriptor) <==> kind == receiver_kind_of(descriptor) by {
        let chosen = receiver_kind_of(descriptor);
        if kind.takes(descriptor) {
            if kind.rank() < chosen.rank() {
                assert(kind.accepts(descriptor));
            } else if chosen.rank() < kind.rank() {
                assert(chosen.accepts(descriptor));
            }
        }
        if kind == chosen {
            assert forall|earlier: ReceiverKind| earlier.rank() < kind.rank() implies !#[trigger]
                earlier.accepts(descriptor) by {}
        }
    }
}

/// Selects the kind of receiver for the source that `option` names.
pub fn select_receiver(option: &String) -> (kind: ReceiverKind)
    ensures
        kind == receiver_kind_of(option@),
{
    if StdinReceiverCreator.matches(option) {
        ReceiverKind::LineSource
    } else if WebSocketReceiverCreator.matches(option) {
        ReceiverKind::OutboundSocket
    } else {
        ReceiverKind::Datagram
    }
}

/// Plans the transport from which the messages of the source `option` are
/// read, as the receiver creator of its kind plans it.
pub fn plan_receiver(option: &String) -> (plan: Result<ReceiverPlan, SetupError>)
    ensures
        plan_view(plan) == receiver_kind_of(option@).plan(option@),
{
    match select_receiver(option) {
        ReceiverKind::LineSource => StdinReceiverCreator.create_receiver(option),
        ReceiverKind::OutboundSocket => WebSocketReceiverCreator.create_receiver(option),
        ReceiverKind::Datagram => UdpReceiverCreator.create_receiver(option),
    }
}

/// The brokers of a relay, one of every kind.
pub struct Relay {
    pub console: StdoutBroker,
    pub fan_out: WebSocketBroker,
    pub datagram: UdpBroker,
}

/// The Print effects among `effects`: what is written to standard output,
/// piece by piece, in order.
pub open spec fn printed(effects: Seq<EffectView>) -> Seq<Seq<char>>
    decreases effects.len(),
{
    if effects.len() == 0 {
        Seq::empty()
    } else {
        let earlier = printed(effects.drop_last());
        match effects.last() {
            EffectView::Print { text } => earlier.push(text),
            _ => earlier,
        }
    }
}

impl Relay {
    /// Whether nothing is attached to any broker.
    pub open spec fn idle(self) -> bool {
        &&& !self.console@
        &&& self.fan_out@.len() == 0
        &&& self.datagram@.len() == 0
    }

    /// Whether attaching `descriptor` takes the relay to `after` and leaves
    /// `setup` to be done: the broker of the descriptor's kind attaches it,
    /// and the other brokers stay as they are.
    pub open spec fn attaches(
        self,
        descriptor: Seq<char>,
        after: Relay,
        setup: Result<SetupView, SetupError>,
    ) -> bool {
        match broker_kind_of(descriptor) {
            BrokerKind::Console => {
                &&& self.console.attaches(descriptor, after.console, setup)
                &&& after.fan_out@ == self.fan_out@
                &&& after.datagram@ == self.datagram@
            },
            BrokerKind::FanOut => {
                &&& after.console@ == self.console@
                &&& self.fan_out.attaches(descriptor, after.fan_out, setup)
                &&& after.datagram@ == self.datagram@
            },
            BrokerKind::Datagram => {
                &&& after.console@ == self.console@
                &&& after.fan_out@ == self.fan_out@
                &&& self.datagram.attaches(descriptor, after.datagram, setup)
            },
        }
    }

    /// The effects by which the relay, as it stands, delivers `message`:
    /// those of the console broker, then those of the fan-out broker, then
    /// those of the datagram broker.
    pub open spec fn delivery(self, message: Seq<char>) -> Seq<EffectView> {
        self.console.delivery(message) + self.fan_out.delivery(message) + self.datagram.delivery(
            message,
        )
    }

    /// The effects by which the relay delivers `messages`, one after the
    /// other.
    pub open spec fn run(self, messages: Seq<Seq<char>>) -> Seq<EffectView>
        decreases messages.len(),
    {
        if messages.len() == 0 {
            Seq::empty()
        } else {
            self.run(messages.drop_last()) + self.delivery(messages.last())
        }
    }

    /// A relay to whose brokers nothing is attached.
    pub fn new() -> (relay: Relay)
        ensures
            relay.idle(),
    {
        Relay {
            console: StdoutBroker::new(),
            fan_out: WebSocketBroker::new(),
            datagram: UdpBroker::new(),
        }
    }

    /// Selects the kind of broker for the destination that `option` names:
    /// the brokers are asked in the order console, fan-out, datagram, and the
    /// first that accepts the descriptor has it.
    pub fn select_broker(&self, option: &String) -> (kind: BrokerKind)
        ensures
            kind == broker_kind_of(option@),
    {
        if self.console.matches(option) {
            BrokerKind::Console
        } else if self.fan_out.matches(option) {
            BrokerKind::FanOut
        } else {
            BrokerKind::Datagram
        }
    }

    /// Attaches the destination that `option` names to the broker of its
    /// kind, and to no other.
    pub fn attach(&mut self, option: &String) -> (setup: Result<Setup, SetupError>)
        ensures
            old(self).attaches(option@, *final(self), setup_view(setup)),
    {
        match self.select_broker(option) {
            BrokerKind::Console => self.console.add_destination(option),
            BrokerKind::FanOut => self.fan_out.add_destination(option),
            BrokerKind::Datagram => self.datagram.add_destination(option),
        }
    }

    /// Stores the address to which the descriptor of a datagram destination
    /// resolved.
    pub fn resolved(&mut self, endpoint: Endpoint)
        ensures
            final(self).console@ == old(self).console@,
            final(self).fan_out@ == old(self).fan_out@,
            final(self).datagram@ == old(self).datagram@.push(endpoint),
    {
        self.datagram.resolved(endpoint);
    }

    /// The effects that deliver `message`: every broker is asked, in the
    /// order console, fan-out, datagram.
    pub fn dispatch(&self, message: &String) -> (effects: Vec<Effect>)
        ensures
            effect_views(effects@) == self.delivery(message@),
    {
        let mut effects = self.console.send(message);
        let mut fanned = self.fan_out.send(message);
        let mut transmitted = self.datagram.send(message);
        let ghost first = effects@;
        let ghost second = fanned@;
        let ghost third = transmitted@;
        effects.append(&mut fanned);
        effects.append(&mut transmitted);
        assert(effect_views(effects@) =~= effect_views(first) + effect_views(second)
            + effect_views(third));
        effects
    }
}

/// A relay to which nothing is attached delivers every message by no effect
/// at all, however many messages come.
pub proof fn lemma_idle_relay_is_silent(relay: Relay, messages: Seq<Seq<char>>)
    requires
        relay.idle(),
    ensures
        forall|i: int| 0 <= i < messages.len() ==> relay.delivery(#[trigger] messages[i]).len() == 0,
        relay.run(messages).len() == 0,
    decreases messages.len(),
{
    if messages.len() > 0 {
        lemma_idle_relay_is_silent(relay, messages.drop_last());
        assert forall|i: int| 0 <= i < messages.len() implies relay.delivery(
            #[trigger] messages[i],
        ).len() == 0 by {
            assert(relay.datagram.delivery(messages[i]).len() == 0);
        }
        assert(messages.last() == messages[messages.len() - 1]);
    }
}

/// The Print effects of two runs of effects, one after the other, are those
/// of the first and then those of the second.
proof fn lemma_printed_concat(first: Seq<EffectView>, second: Seq<EffectView>)
    ensures
        printed(first + second) == printed(first) + printed(second),
    decreases second.len(),
{
    if second.len() == 0 {
        assert(first + second =~= first);
        assert(printed(first) + printed(second) =~= printed(first));
    } else {
        lemma_printed_concat(first, second.drop_last());
        assert((first + second).drop_last() =~= first + second.drop_last());
        assert((first + second).last() == second.last());
        assert(printed(first + second) =~= printed(first) + printed(second));
    }
}

/// No effect of a sequence of which none is a Print is printed.
proof fn lemma_printed_none(effects: Seq<EffectView>)
    requires
        forall|i: int| 0 <= i < effects.len() ==> !(effects[i] is Print),
    ensures
        printed(effects) == Seq::<Seq<char>>::empty(),
    decreases effects.len(),
{
    if effects.len() > 0 {
        lemma_printed_none(effects.drop_last());
    }
}

/// With the console attached, a relay writes to standard output exactly the
/// messages that come, each followed by a line end, once each and in the
/// order of their arrival, whatever else is attached.
pub proof fn lemma_console_prints_every_message(relay: Relay, messages: Seq<Seq<char>>)
    requires
        relay.console@,
    ensures
        printed(relay.run(messages)) == Seq::new(
            messages.len(),
            |i: int| messages[i].push('\n'),
        ),
    decreases messages.len(),
{
    let lines = Seq::new(messages.len(), |i: int| messages[i].push('\n'));
    if messages.len() == 0 {
        assert(printed(relay.run(messages)) =~= lines);
    } else {
        let earlier = messages.drop_last();
        let message = messages.last();
        lemma_console_prints_every_message(relay, earlier);
        let console = relay.console.delivery(message);
        let fanned = relay.fan_out.delivery(message);
        let transmitted = relay.datagram.delivery(message);
        lemma_printed_concat(relay.run(earlier), relay.delivery(message));
        lemma_printed_concat(console + fanned, transmitted);
        lemma_printed_concat(console, fanned);
        lemma_printed_none(fanned);
        lemma_printed_none(transmitted);
        assert(console.drop_last() =~= Seq::<EffectView>::empty());
        assert(printed(console.drop_last()) =~= Seq::<Seq<char>>::empty());
        assert(printed(console) =~= seq![message.push('\n')]);
        assert(printed(relay.run(messages)) =~= lines);
    }
}

/// Attaching standard output a second time changes nothing: the broker
/// stands as after the first time, the same is left to be done, and every
/// message is delivered by the same effects.
pub proof fn lemma_console_attach_is_idempotent(
    broker: StdoutBroker,
    first: Seq<char>,
    once: StdoutBroker,
    done_once: Result<SetupView, SetupError>,
    second: Seq<char>,
    twice: StdoutBroker,
    done_twice: Result<SetupView, SetupError>,
)
    requires
        broker.attaches(first, once, done_once),
        once.attaches(second, twice, done_twice),
    ensures
        twice@ == once@,
        done_twice == done_once,
        forall|message: Seq<char>| twice.delivery(message) == once.delivery(message),
{
}

} // verus!
