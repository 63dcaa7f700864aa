use crate::address::{
    effective_port, normalize_host, port_or_default, ported, unbracketed, with_port, IpAddress,
    SocketAddress,
};
use crate::external::{dns_name, dns_name_of};
use hyper_util::client::legacy::connect::dns::Name;
use vstd::prelude::*;

verus! {

/// Where a connect attempt stands.
#[derive(Clone, Copy, Debug, PartialEq, Eq, Structural)]
pub enum Stage {
    /// Waiting to learn whether the host is a literal IP address.
    Classifying,
    /// Waiting for the resolver's answer.
    Resolving,
    /// Waiting for the dial of the candidate at this index.
    Dialing(usize),
    /// Waiting for the HTTP/3 handshake on the candidate at this index.
    Negotiating(usize),
    /// Nothing more to do.
    Finished,
}

/// Why a connect attempt failed. `E` is the error type of the collaborators.
#[derive(Debug)]
pub enum ConnectError<E> {
    /// The destination has no host.
    MissingHost,
    /// The resolver failed.
    Resolve(E),
    /// The resolver succeeded with no address.
    NoAddresses,
    /// Every candidate was rejected by the transport; this is the last rejection.
    Dial(E),
    /// The HTTP/3 handshake failed after the transport connected.
    Negotiate(E),
}

/// The outcome of the outside work that an [`Action`] asked for.
pub enum Event<E> {
    /// The host parsed as this literal IP address, or as none.
    HostParsed(Option<IpAddress>),
    /// The resolver's addresses, in its order.
    Resolved(Vec<SocketAddress>),
    ResolveFailed(E),
    /// The transport accepted the dial.
    Dialed,
    DialFailed(E),
    /// The HTTP/3 session is established.
    Negotiated,
    NegotiationFailed(E),
}

/// The outside work a connect attempt asks for next.
pub enum Action<E> {
    /// Parse this host as a literal IP address.
    ClassifyHost(String),
    /// Resolve this name.
    Resolve(Name),
    /// Dial this address, verifying the server's identity against the host name.
    Dial(String, SocketAddress),
    /// Run the HTTP/3 handshake on the connection just dialed to this address.
    Negotiate(SocketAddress),
    /// The session on this address is ready: hand it to the caller.
    Done(SocketAddress),
    /// Give up with this error.
    Fail(ConnectError<E>),
}

/// An [`Event`] as a mathematical value.
pub enum EventView<E> {
    HostParsed(Option<IpAddress>),
    Resolved(Seq<SocketAddress>),
    ResolveFailed(E),
    Dialed,
    DialFailed(E),
    Negotiated,
    NegotiationFailed(E),
}

/// What an [`Action`] asks for, as a mathematical value.
pub enum Step<E> {
    ClassifyHost(Seq<char>),
    Resolve(Seq<char>),
    Dial(Seq<char>, SocketAddress),
    Negotiate(SocketAddress),
    Done(SocketAddress),
    Fail(ConnectError<E>),
}

impl<E> View for Event<E> {
    type V = EventView<E>;

    open spec fn view(&self) -> EventView<E> {
        match self {
            Event::HostParsed(ip) => EventView::HostParsed(*ip),
            Event::Resolved(addrs) => EventView::Resolved(addrs@),
            Event::ResolveFailed(e) => EventView::ResolveFailed(*e),
            Event::Dialed => EventView::Dialed,
            Event::DialFailed(e) => EventView::DialFailed(*e),
            Event::Negotiated => EventView::Negotiated,
            Event::NegotiationFailed(e) => EventView::NegotiationFailed(*e),
        }
    }
}

/// `a` asks for `s`: a `Resolve` carries the resolver name built from the host.
pub open spec fn describes<E>(a: Action<E>, s: Step<E>) -> bool {
    match (a, s) {
        (Action::ClassifyHost(h), Step::ClassifyHost(g)) => h@ == g,
        (Action::Resolve(n), Step::Resolve(g)) => n == dns_name_of(g),
        (Action::Dial(h, x), Step::Dial(g, y)) => h@ == g && x == y,
        (Action::Negotiate(x), Step::Negotiate(y)) => x == y,
        (Action::Done(x), Step::Done(y)) => x == y,
        (Action::Fail(e), Step::Fail(f)) => e == f,
        _ => false,
    }
}

/// A connect attempt as a mathematical value.
pub struct AttemptView {
    pub host: Seq<char>,
    pub port: u16,
    pub candidates: Seq<SocketAddress>,
    pub stage: Stage,
}

/// One call of `connect`: the host, the port and the candidates, and the
/// stage reached. It keeps no session and no error once it has handed them out.
pub struct Attempt {
    host: String,
    port: u16,
    candidates: Vec<SocketAddress>,
    stage: Stage,
}

impl View for Attempt {
    type V = AttemptView;

    closed spec fn view(&self) -> AttemptView {
        AttemptView {
            host: self.host@,
            port: self.port,
            candidates: self.candidates@,
            stage: self.stage,
        }
    }
}

/// The candidate index of a dialing or negotiating stage.
pub open spec fn stage_index(stage: Stage) -> int {
    match stage {
        Stage::Dialing(i) => i as int,
        Stage::Negotiating(i) => i as int,
        _ => 0,
    }
}

/// Every candidate carries the attempt's port, and the stage's index names a candidate.
pub open spec fn well_formed(s: AttemptView) -> bool {
    &&& s.candidates.len() <= usize::MAX
    &&& forall|k: int| 0 <= k < s.candidates.len() ==> (#[trigger] s.candidates[k]).port == s.port
    &&& (s.stage is Dialing || s.stage is Negotiating) ==> stage_index(s.stage) < s.candidates.len()
}

/// The events a stage is waiting for.
pub open spec fn awaits<E>(stage: Stage, ev: EventView<E>) -> bool {
    match stage {
        Stage::Classifying => ev is HostParsed,
        Stage::Resolving => match ev {
            EventView::Resolved(addrs) => addrs.len() <= usize::MAX,
            EventView::ResolveFailed(_) => true,
            _ => false,
        },
        Stage::Dialing(_) => ev is Dialed || ev is DialFailed,
        Stage::Negotiating(_) => ev is Negotiated || ev is NegotiationFailed,
        Stage::Finished => false,
    }
}

/// The text of a host, if there is one.
pub open spec fn host_view(host: Option<&str>) -> Option<Seq<char>> {
    match host {
        Some(h) => Some(h@),
        None => None,
    }
}

/// The attempt that `connect` starts for a destination's host and port, and
/// its first action.
pub open spec fn start<E>(host: Option<Seq<char>>, port: Option<u16>) -> (AttemptView, Step<E>) {
    match host {
        None => (
            AttemptView {
                host: Seq::empty(),
                port: port_or_default(port),
                candidates: Seq::empty(),
                stage: Stage::Finished,
            },
            Step::Fail(ConnectError::MissingHost),
        ),
        Some(h) => (
            AttemptView {
                host: unbracketed(h),
                port: port_or_default(port),
                candidates: Seq::empty(),
                stage: Stage::Classifying,
            },
            Step::ClassifyHost(unbracketed(h)),
        ),
    }
}

/// `s` moved to `stage` with `candidates`.
pub open spec fn moved(s: AttemptView, candidates: Seq<SocketAddress>, stage: Stage) -> AttemptView {
    AttemptView { host: s.host, port: s.port, candidates, stage }
}

/// Dial the candidate at `i` if there is one, else fail with `err`.
pub open spec fn dial_from<E>(s: AttemptView, c: Seq<SocketAddress>, i: int, err: ConnectError<E>) -> (AttemptView, Step<E>) {
    if i < c.len() {
        (moved(s, c, Stage::Dialing(i as usize)), Step::Dial(s.host, c[i]))
    } else {
        (moved(s, c, Stage::Finished), Step::Fail(err))
    }
}

/// The attempt after `ev`, and its next action: a literal address is dialed
/// without resolution, resolved addresses are dialed in order on the
/// destination's port, a dial rejection moves on to the next candidate, and
/// the first accepted dial is negotiated, whatever the outcome.
pub open spec fn next<E>(s: AttemptView, ev: EventView<E>) -> (AttemptView, Step<E>) {
    let i = stage_index(s.stage);
    match ev {
        EventView::HostParsed(Some(ip)) => dial_from(
            s,
            seq![SocketAddress { ip, port: s.port }],
            0,
            ConnectError::NoAddresses,
        ),
        EventView::HostParsed(None) => (moved(s, s.candidates, Stage::Resolving), Step::Resolve(s.host)),
        EventView::Resolved(addrs) => dial_from(s, ported(addrs, s.port), 0, ConnectError::NoAddresses),
        EventView::ResolveFailed(e) => (moved(s, s.candidates, Stage::Finished), Step::Fail(ConnectError::Resolve(e))),
        EventView::Dialed => (
            moved(s, s.candidates, Stage::Negotiating(i as usize)),
            Step::Negotiate(s.candidates[i]),
        ),
        EventView::DialFailed(e) => dial_from(s, s.candidates, i + 1, ConnectError::Dial(e)),
        EventView::Negotiated => (moved(s, s.candidates, Stage::Finished), Step::Done(s.candidates[i])),
        EventView::NegotiationFailed(e) => (
            moved(s, s.candidates, Stage::Finished),
            Step::Fail(ConnectError::Negotiate(e)),
        ),
    }
}

impl Attempt {
    /// Starts an attempt on a destination's host and explicit port. Without a
    /// host it is over at once; else the host, without brackets, is to be
    /// classified.
    pub fn begin<E>(host: Option<&str>, port: Option<u16>) -> (r: (Attempt, Action<E>))
        ensures
            r.0@ == start::<E>(host_view(host), port).0,
            describes(r.1, start::<E>(host_view(host), port).1),
            well_formed(r.0@),
    {
        let port = effective_port(port);
        match host {
            None => (
                Attempt { host: String::new(), port, candidates: Vec::new(), stage: Stage::Finished },
                Action::Fail(ConnectError::MissingHost),
            ),
            Some(h) => {
                let host = normalize_host(h).to_owned();
                let shown = host.clone();
                (
                    Attempt { host, port, candidates: Vec::new(), stage: Stage::Classifying },
                    Action::ClassifyHost(shown),
                )
            },
        }
    }

    /// Whether the attempt is waiting for `event`.
    pub fn awaits<E>(&self, event: &Event<E>) -> (r: bool)
        ensures
            r == awaits(self@.stage, event@),
    {
        match self.stage {
            Stage::Classifying => matches!(event, Event::HostParsed(_)),
            Stage::Resolving => match event {
                Event::Resolved(addrs) => {
                    // what a vector holds is counted by a usize
                    let _count: usize = addrs.len();
                    true
                },
                Event::ResolveFailed(_) => true,
                _ => false,
            },
            Stage::Dialing(_) => matches!(event, Event::Dialed | Event::DialFailed(_)),
            Stage::Negotiating(_) => matches!(event, Event::Negotiated | Event::NegotiationFailed(_)),
            Stage::Finished => false,
        }
    }

    /// Dials the candidate at `i`, or fails with `err` past the last one.
    fn dial_or_fail<E>(&mut self, i: usize, err: ConnectError<E>) -> (r: Action<E>)
        requires
            i <= old(self)@.candidates.len(),
            forall|k: int| 0 <= k < old(self)@.candidates.len() ==> (#[trigger] old(self)@.candidates[k]).port == old(self)@.port,
        ensures
            final(self)@ == dial_from(old(self)@, old(self)@.candidates, i as int, err).0,
            describes(r, dial_from(old(self)@, old(self)@.candidates, i as int, err).1),
            well_formed(final(self)@),
    {
        if i < self.candidates.len() {
            self.stage = Stage::Dialing(i);
            Action::Dial(self.host.clone(), self.candidates[i])
        } else {
            self.stage = Stage::Finished;
            Action::Fail(err)
        }
    }

    /// Takes the outcome of the last action and decides the next one.
    pub fn step<E>(&mut self, event: Event<E>) -> (r: Action<E>)
        requires
            well_formed(old(self)@),
            awaits(old(self)@.stage, event@),
        ensures
            final(self)@ == next(old(self)@, event@).0,
            describes(r, next(old(self)@, event@).1),
            well_formed(final(self)@),
    {
        let i: usize = match self.stage {
            Stage::Dialing(i) => i,
            Stage::Negotiating(i) => i,
            _ => 0,
        };
        proof {
            assert(i as int == stage_index(self.stage));
        }
        match event {
            Event::HostParsed(Some(ip)) => {
                self.candidates = vec![SocketAddress { ip, port: self.port }];
                proof {
                    assert(self.candidates@ =~= seq![SocketAddress { ip, port: self.port }]);
                }
                self.dial_or_fail(0, ConnectError::NoAddresses)
            },
            Event::HostParsed(None) => {
                let name = match dns_name(self.host.as_str()) {
                    Ok(n) => n,
                    Err(_) => unreached(),
                };
                self.stage = Stage::Resolving;
                Action::Resolve(name)
            },
            Event::Resolved(addrs) => {
                self.candidates = with_port(addrs, self.port);
                self.dial_or_fail(0, ConnectError::NoAddresses)
            },
            Event::ResolveFailed(e) => {
                self.stage = Stage::Finished;
                Action::Fail(ConnectError::Resolve(e))
            },
            Event::Dialed => {
                self.stage = Stage::Negotiating(i);
                Action::Negotiate(self.candidates[i])
            },
            Event::DialFailed(e) => {
                assert(i < self@.candidates.len());
                self.dial_or_fail(i + 1, ConnectError::Dial(e))
            },
            Event::Negotiated => {
                self.stage = Stage::Finished;
                Action::Done(self.candidates[i])
            },
            Event::NegotiationFailed(e) => {
                self.stage = Stage::Finished;
                Action::Fail(ConnectError::Negotiate(e))
            },
        }
    }

    /// The host, without brackets: the identity the server is verified against.
    pub fn server_name(&self) -> (r: &str)
        ensures
            r@ == self@.host,
    {
        self.host.as_str()
    }

    /// The port every candidate is dialed on.
    pub fn port(&self) -> (r: u16)
        ensures
            r == self@.port,
    {
        self.port
    }

    /// The candidate addresses, in the order they are tried.
    pub fn candidates(&self) -> (r: &Vec<SocketAddress>)
        ensures
            r@ == self@.candidates,
    {
        &self.candidates
    }

    pub fn stage(&self) -> (r: Stage)
        ensures
            r == self@.stage,
    {
        self.stage
    }
}

} // verus!
