//! Brokers: one per kind of destination.
//!
//! A broker takes in the destinations of its kind and turns each message
//! into the effects that deliver it to all of them. A broker to which
//! nothing is attached delivers nothing.

use vstd::prelude::*;
use vstd::string::*;
use vstd::utf8::encode_utf8;
use regex::Regex;
use crate::descriptor::{console_keyword, has_prefix, is_keyword, socket_scheme};
use crate::effect::{
    effect_views, setup_view, Effect, EffectView, Endpoint, Setup, SetupError, SetupView,
};

verus! {

/// A kind of destination and the destinations of that kind.
pub trait Broker: Sized {
    /// Whether a descriptor names a destination of this kind.
    spec fn accepts(descriptor: Seq<char>) -> bool;

    /// Whether attaching `descriptor` takes the broker to `after` and leaves
    /// `setup` to be done.
    spec fn attaches(
        self,
        descriptor: Seq<char>,
        after: Self,
        setup: Result<SetupView, SetupError>,
    ) -> bool;

    /// The effects by which the broker, as it stands, delivers `message`.
    spec fn delivery(self, message: Seq<char>) -> Seq<EffectView>;

    /// Whether `option` names a destination of this kind.
    fn matches(&self, option: &String) -> (accepted: bool)
        ensures
            accepted == Self::accepts(option@),
    ;

    /// Attaches the destination that `option` names.
    fn add_destination(&mut self, option: &String) -> (setup: Result<Setup, SetupError>)
        ensures
            old(self).attaches(option@, *final(self), setup_view(setup)),
    ;

    /// The effects that deliver `message` to every attached destination.
    fn send(&self, message: &String) -> (effects: Vec<Effect>)
        ensures
            effect_views(effects@) == self.delivery(message@),
    ;
}

/// The broker of the process's standard output.
pub struct StdoutBroker {
    enabled: bool,
}

impl View for StdoutBroker {
    type V = bool;

    /// Whether standard output has been attached.
    closed spec fn view(&self) -> bool {
        self.enabled
    }
}

impl StdoutBroker {
    /// A console broker to which nothing is attached.
    pub fn new() -> (broker: StdoutBroker)
        ensures
            !broker@,
    {
        StdoutBroker { enabled: false }
    }

    /// Whether standard output has been attached.
    pub fn is_enabled(&self) -> (enabled: bool)
        ensures
            enabled == self@,
    {
        self.enabled
    }
}

impl Broker for StdoutBroker {
    open spec fn accepts(descriptor: Seq<char>) -> bool {
        descriptor == console_keyword()
    }

    open spec fn attaches(
        self,
        descriptor: Seq<char>,
        after: Self,
        setup: Result<SetupView, SetupError>,
    ) -> bool {
        after@ && setup == Ok::<SetupView, SetupError>(SetupView::Ready)
    }

    open spec fn delivery(self, message: Seq<char>) -> Seq<EffectView> {
        if self@ {
            seq![EffectView::Print { text: message.push('\n') }]
        } else {
            Seq::empty()
        }
    }

    fn matches(&self, option: &String) -> (accepted: bool) {
        is_keyword(option, "stdout")
    }

    fn add_destination(&mut self, option: &String) -> (setup: Result<Setup, SetupError>) {
        self.enabled = true;
        Ok(Setup::Ready)
    }

    fn send(&self, message: &String) -> (effects: Vec<Effect>) {
        let mut effects: Vec<Effect> = Vec::new();
        if self.enabled {
            let mut text = message.clone();
            text.append("\n");
            proof {
                reveal_strlit("\n");
                assert(text@ =~= message@.push('\n'));
            }
            effects.push(Effect::Print { text });
            assert(effect_views(effects@) =~= self.delivery(message@));
        } else {
            assert(effect_views(effects@) =~= self.delivery(message@));
        }
        effects
    }
}

/// The regular expression whose first group holds the host and port of a
/// listen address.
pub open spec fn host_port_pattern() -> Seq<char> {
    "://(.*)/?"@
}

/// The text that group number `group` holds in the leftmost match of the
/// regular expression `pattern` in `text`; `None` where `pattern` is not a
/// regular expression, where it matches nowhere in `text`, and where the
/// group took no part in the match.
pub uninterp spec fn regex_group(pattern: Seq<char>, text: Seq<char>, group: int) -> Option<
    Seq<char>,
>;

/// Whether `part` is a contiguous stretch of `whole`.
pub open spec fn is_part_of(part: Seq<char>, whole: Seq<char>) -> bool {
    exists|from: int, to: int|
        0 <= from <= to <= whole.len() && part == #[trigger] whole.subrange(from, to)
}

/// The content of a text that may be missing.
pub open spec fn text_view(text: Option<String>) -> Option<Seq<char>> {
    match text {
        Some(text) => Some(text@),
        None => None,
    }
}

/// Compiles `pattern` with `regex::Regex::new`, searches `text` with
/// `Regex::captures` and takes the group with `Captures::get`.
///
/// Trusted: that the outcome is a function of the three arguments alone, and
/// that a group's text is a stretch of the text searched, as `Match::as_str`
/// slices it out of the haystack.
#[verifier::external_body]
fn capture_group(pattern: &str, text: &str, group: usize) -> (found: Option<String>)
    ensures
        text_view(found) == regex_group(pattern@, text@, group as int),
        found matches Some(part) ==> is_part_of(part@, text@),
{
    let regex = Regex::new(pattern).ok()?;
    let captures = regex.captures(text)?;
    Some(captures.get(group)?.as_str().to_string())
}

/// The host and port of the listen address `descriptor`, if it has any.
pub open spec fn host_port_of(descriptor: Seq<char>) -> Option<Seq<char>> {
    regex_group(host_port_pattern(), descriptor, 1)
}

/// Takes the host and port, what follows `://`, out of a listen address.
pub fn get_host_port(uri: &String) -> (found: Option<String>)
    ensures
        text_view(found) == host_port_of(uri@),
        found matches Some(address) ==> is_part_of(address@, uri@),
{
    capture_group("://(.*)/?", uri.as_str(), 1)
}

/// The broker of the websocket listen addresses. To every attached address
/// belongs one collection of accepted connections; the collections are
/// numbered in the order in which the addresses were attached.
pub struct WebSocketBroker {
    listeners: Vec<String>,
}

impl View for WebSocketBroker {
    type V = Seq<Seq<char>>;

    /// The attached listen addresses, host and port each, by the number of
    /// their collection.
    closed spec fn view(&self) -> Seq<Seq<char>> {
        self.listeners@.map_values(|address: String| address@)
    }
}

/// Whether a fan-out broker that holds `before` goes to `after` and leaves
/// `setup` to be done when it is given the host and port `found`.
pub open spec fn listening(
    before: Seq<Seq<char>>,
    found: Option<Seq<char>>,
    after: Seq<Seq<char>>,
    setup: Result<SetupView, SetupError>,
) -> bool {
    match found {
        Some(address) => {
            &&& after == before.push(address)
            &&& setup == Ok::<SetupView, SetupError>(
                SetupView::Listen { address, collection: before.len() as usize },
            )
        },
        None => {
            &&& after == before
            &&& setup == Err::<SetupView, SetupError>(SetupError::NoHostPort)
        },
    }
}

impl WebSocketBroker {
    /// A fan-out broker to which nothing is attached.
    pub fn new() -> (broker: WebSocketBroker)
        ensures
            broker@ == Seq::<Seq<char>>::empty(),
    {
        let broker = WebSocketBroker { listeners: Vec::new() };
        assert(broker@ =~= Seq::<Seq<char>>::empty());
        broker
    }

    /// The number of attached listen addresses.
    pub fn len(&self) -> (count: usize)
        ensures
            count == self@.len(),
    {
        self.listeners.len()
    }

    /// Attaches the listen address whose host and port are `found`, and
    /// refuses where there is none.
    pub fn listen_on(&mut self, found: Option<String>) -> (setup: Result<Setup, SetupError>)
        ensures
            listening(old(self)@, text_view(found), final(self)@, setup_view(setup)),
    {
        match found {
            Some(address) => {
                let collection: usize = self.listeners.len();
                self.listeners.push(address.clone());
                assert(self@ =~= old(self)@.push(address@));
                Ok(Setup::Listen { address, collection })
            },
            None => Err(SetupError::NoHostPort),
        }
    }
}

impl Broker for WebSocketBroker {
    open spec fn accepts(descriptor: Seq<char>) -> bool {
        socket_scheme().is_prefix_of(descriptor)
    }

    open spec fn attaches(
        self,
        descriptor: Seq<char>,
        after: Self,
        setup: Result<SetupView, SetupError>,
    ) -> bool {
        listening(self@, host_port_of(descriptor), after@, setup)
    }

    open spec fn delivery(self, message: Seq<char>) -> Seq<EffectView> {
        Seq::new(
            self@.len(),
            |collection: int| EffectView::Deliver { collection: collection as usize, text: message },
        )
    }

    fn matches(&self, option: &String) -> (accepted: bool) {
        has_prefix(option, "ws://")
    }

    fn add_destination(&mut self, option: &String) -> (setup: Result<Setup, SetupError>) {
        let found = get_host_port(option);
        self.listen_on(found)
    }

    fn send(&self, message: &String) -> (effects: Vec<Effect>) {
        let mut effects: Vec<Effect> = Vec::new();
        let count: usize = self.listeners.len();
        let mut collection: usize = 0;
        while collection < count
            invariant
                collection <= count,
                count == self@.len(),
                effect_views(effects@) == Seq::new(
                    collection as nat,
                    |collection: int|
                        EffectView::Deliver { collection: collection as usize, text: message@ },
                ),
            decreases count - collection,
        {
            let ghost earlier = effect_views(effects@);
            effects.push(Effect::Deliver { collection, text: message.clone() });
            assert(effect_views(effects@) =~= earlier.push(
                EffectView::Deliver { collection, text: message@ },
            ));
            collection += 1;
        }
        effects
    }
}

/// The broker of the datagram destinations.
pub struct UdpBroker {
    destinations: Vec<Endpoint>,
}

impl View for UdpBroker {
    type V = Seq<Endpoint>;

    /// The resolved destinations, in the order in which they were stored.
    closed spec fn view(&self) -> Seq<Endpoint> {
        self.destinations@
    }
}

impl UdpBroker {
    /// A datagram broker to which nothing is attached.
    pub fn new() -> (broker: UdpBroker)
        ensures
            broker@ == Seq::<Endpoint>::empty(),
    {
        UdpBroker { destinations: Vec::new() }
    }

    /// Stores the address to which the descriptor of a destination resolved.
    pub fn resolved(&mut self, endpoint: Endpoint)
        ensures
            final(self)@ == old(self)@.push(endpoint),
    {
        self.destinations.push(endpoint);
    }
}

impl Broker for UdpBroker {
    open spec fn accepts(descriptor: Seq<char>) -> bool {
        true
    }

    open spec fn attaches(
        self,
        descriptor: Seq<char>,
        after: Self,
        setup: Result<SetupView, SetupError>,
    ) -> bool {
        &&& after@ == self@
        &&& setup == Ok::<SetupView, SetupError>(SetupView::Resolve { descriptor })
    }

    open spec fn delivery(self, message: Seq<char>) -> Seq<EffectView> {
        self@.map_values(
            |endpoint: Endpoint|
                EffectView::Transmit {
                    socket: endpoint.family_of(),
                    endpoint,
                    payload: encode_utf8(message),
                },
        )
    }

    fn matches(&self, option: &String) -> (accepted: bool) {
        true
    }

    fn add_destination(&mut self, option: &String) -> (setup: Result<Setup, SetupError>) {
        Ok(Setup::Resolve { descriptor: option.clone() })
    }

    fn send(&self, message: &String) -> (effects: Vec<Effect>) {
        let mut effects: Vec<Effect> = Vec::new();
        let count: usize = self.destinations.len();
        let mut index: usize = 0;
        while index < count
            invariant
                index <= count,
                count == self@.len(),
                effect_views(effects@) == self.delivery(message@).subrange(0, index as int),
            decreases count - index,
        {
            let endpoint = self.destinations[index];
            let payload = message.as_str().as_bytes_vec();
            let ghost earlier = effect_views(effects@);
            effects.push(Effect::Transmit { socket: endpoint.family(), endpoint, payload });
            assert(effect_views(effects@) =~= earlier.push(self.delivery(message@)[index as int]));
            index += 1;
        }
        assert(self.delivery(message@).subrange(0, count as int) =~= self.delivery(message@));
        effects
    }
}

} // verus!
