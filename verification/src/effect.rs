//! What the engine asks the program around it to do.
//!
//! Attaching a destination may call for a setup step ([`Setup`]); delivering
//! a message yields the effects that carry it out ([`Effect`]). Both are
//! plain data: the engine opens no socket and writes to no stream.

use vstd::prelude::*;

verus! {

/// A network-address family.
#[derive(Clone, Copy, Debug, PartialEq, Eq, Structural)]
pub enum Family {
    V4,
    V6,
}

/// A resolved socket address: an IP address as a number in host byte order,
/// a port, and for IPv6 the flow information and the scope.
#[allow(inconsistent_fields)]
#[derive(Clone, Copy, Debug, PartialEq, Eq, Structural)]
pub enum Endpoint {
    V4 { address: u32, port: u16 },
    V6 { address: u128, port: u16, flow: u32, scope: u32 },
}

impl Endpoint {
    /// The family of the address.
    pub open spec fn family_of(self) -> Family {
        match self {
            Endpoint::V4 { .. } => Family::V4,
            Endpoint::V6 { .. } => Family::V6,
        }
    }

    /// The family of the address.
    pub fn family(&self) -> (family: Family)
        ensures
            family == self.family_of(),
    {
        match self {
            Endpoint::V4 { .. } => Family::V4,
            Endpoint::V6 { .. } => Family::V6,
        }
    }
}

/// Why a source or a destination could not be set up.
#[derive(Clone, Copy, Debug, PartialEq, Eq, Structural)]
pub enum SetupError {
    /// No host and port could be taken from the descriptor of a listen
    /// address.
    NoHostPort,
    /// The descriptor of an outbound connection is not an absolute URL.
    InvalidUrl,
}

/// What remains to be done once a destination has been attached.
#[derive(Debug, PartialEq, Eq)]
pub enum Setup {
    /// Nothing.
    Ready,
    /// Bind a server socket to `address`, accept connections on it for as
    /// long as the relay runs, and gather them in the connection collection
    /// numbered `collection`.
    Listen { address: String, collection: usize },
    /// Resolve `descriptor` to a socket address and hand the address back.
    Resolve { descriptor: String },
}

/// The mathematical content of a [`Setup`].
pub enum SetupView {
    Ready,
    Listen { address: Seq<char>, collection: usize },
    Resolve { descriptor: Seq<char> },
}

impl View for Setup {
    type V = SetupView;

    open spec fn view(&self) -> SetupView {
        match *self {
            Setup::Ready => SetupView::Ready,
            Setup::Listen { address, collection } => SetupView::Listen {
                address: address@,
                collection,
            },
            Setup::Resolve { descriptor } => SetupView::Resolve { descriptor: descriptor@ },
        }
    }
}

/// The content of the outcome of attaching a destination.
pub open spec fn setup_view(setup: Result<Setup, SetupError>) -> Result<SetupView, SetupError> {
    match setup {
        Ok(setup) => Ok(setup@),
        Err(error) => Err(error),
    }
}

/// One step in the delivery of a message.
#[derive(Debug, PartialEq, Eq)]
pub enum Effect {
    /// Write `text` to standard output as it stands.
    Print { text: String },
    /// Make a delivery pass with `text` over the connection collection
    /// numbered `collection`.
    Deliver { collection: usize, text: String },
    /// Send `payload` as one datagram to `endpoint`, from the socket of the
    /// family `socket`.
    Transmit { socket: Family, endpoint: Endpoint, payload: Vec<u8> },
}

/// The mathematical content of an [`Effect`].
pub enum EffectView {
    Print { text: Seq<char> },
    Deliver { collection: usize, text: Seq<char> },
    Transmit { socket: Family, endpoint: Endpoint, payload: Seq<u8> },
}

impl View for Effect {
    type V = EffectView;

    open spec fn view(&self) -> EffectView {
        match *self {
            Effect::Print { text } => EffectView::Print { text: text@ },
            Effect::Deliver { collection, text } => EffectView::Deliver { collection, text: text@ },
            Effect::Transmit { socket, endpoint, payload } => EffectView::Transmit {
                socket,
                endpoint,
                payload: payload@,
            },
        }
    }
}

/// The contents of a list of effects, in order.
pub open spec fn effect_views(effects: Seq<Effect>) -> Seq<EffectView> {
    effects.map_values(|effect: Effect| effect@)
}

} // verus!
