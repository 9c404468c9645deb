use vstd::prelude::*;

use crate::sealed::Sealed;
use vstd::std_specs::iter::IteratorSpec;

verus! {

/// An IP address, as its numeric value.
#[derive(Clone, Copy, Debug, PartialEq, Eq, Structural)]
pub enum IpAddr {
    V4(u32),
    V6(u128),
}

/// A socket address: an IP address and a port.
#[derive(Clone, Copy, Debug, PartialEq, Eq, Structural)]
pub struct SocketAddr {
    pub ip: IpAddr,
    pub port: u16,
}

/// An identity key, in its textual form.
pub type PublicKey = String;

/// What a transport is bound with.
pub struct BindInfo {
    pub addr: SocketAddr,
    pub advertise_addrs: Vec<SocketAddr>,
    pub public_key: PublicKey,
}

/// Failures surfaced by the lifecycle core and by transport backends.
#[derive(Clone, Debug, PartialEq, Eq)]
pub enum Error {
    /// The inbound sequence has ended for good: the listener is likely gone.
    AcceptTerminated,
    /// A failure reported by a backend, with its message.
    Backend(String),
}

/// Logical streams multiplexed within one connection.
#[derive(Clone, Copy, Debug, Hash, PartialEq, Eq, Structural)]
pub enum StreamId {
    Pex,
}

/// A connection tagged with how it arose.
pub enum Direction<Conn> {
    Incoming(Conn),
    Outgoing(Conn),
}

/// How a peer's connection arose, without the connection.
#[derive(Clone, Copy, Debug, PartialEq, Eq, Structural)]
pub enum Origin {
    Incoming,
    Outgoing,
}

/// A connected peer: a connection and the direction it arose from.
pub struct Peer<Conn> {
    pub connection: Conn,
    pub origin: Origin,
}

impl<Conn> Direction<Conn> {
    pub open spec fn origin(&self) -> Origin {
        match self {
            Direction::Incoming(_) => Origin::Incoming,
            Direction::Outgoing(_) => Origin::Outgoing,
        }
    }

    pub open spec fn connection(&self) -> Conn {
        match self {
            Direction::Incoming(c) => *c,
            Direction::Outgoing(c) => *c,
        }
    }
}

impl<Conn> Peer<Conn> {
    /// Wraps a tagged connection as a peer, keeping the tag and the connection.
    pub fn from(direction: Direction<Conn>) -> (r: Peer<Conn>)
        ensures
            r.connection == direction.connection(),
            r.origin == direction.origin(),
    {
        match direction {
            Direction::Incoming(connection) => Peer { connection, origin: Origin::Incoming },
            Direction::Outgoing(connection) => Peer { connection, origin: Origin::Outgoing },
        }
    }
}

/// One established, possibly multiplexed link to a remote peer, implemented by
/// a network backend. The backend releases the link's resources no later than
/// when the last owning handle goes out of scope.
pub trait Connection {
    /// Failure to open a stream, as the backend defines it.
    type Error;
    /// The readable half of an opened stream.
    type Read;
    /// The writable half of an opened stream.
    type Write;

    /// The addresses the remote peer advertises.
    fn advertised_addrs(&self) -> Vec<SocketAddr>;

    /// Asks for the link to be released early.
    fn close(&self) -> Result<(), Error>;

    fn local_addr(&self) -> SocketAddr;

    /// Opens a readable and a writable channel under `stream_id`.
    fn open_bidirectional(&self, stream_id: &StreamId) -> Result<(Self::Read, Self::Write), Self::Error>;

    /// The identity key the remote peer claims; not verified here.
    fn public_key(&self) -> PublicKey;

    fn remote_addr(&self) -> SocketAddr;
}

/// A local dialing facility that produces connections.
pub trait Endpoint {
    type Connection;

    /// Dials out; blocks until a connection is made or the dial fails.
    fn connect(&self) -> Result<Self::Connection, Error>;

    fn listen_addrs(&self) -> SocketAddr;
}

/// A factory that binds network resources into an endpoint and a sequence of
/// inbound connections, and can shut them down.
pub trait Transport {
    type Connection: Connection;
    type Endpoint: Endpoint<Connection = Self::Connection>;
    type Incoming: Iterator<Item = Result<Self::Connection, Error>>;

    fn bind(&self, bind_info: BindInfo) -> Result<(Self::Endpoint, Self::Incoming), Error>;

    /// Releases what `bind` allocated; an outstanding accept then sees the
    /// inbound sequence end.
    fn shutdown(&self) -> Result<(), Error>;
}

/// A lifecycle phase of a [`Protocol`].
pub trait State: Sealed {}

/// The phase with nothing bound.
pub struct Stopped;

/// The phase that holds what the most recent successful bind produced.
pub struct Running<E, I> {
    endpoint: E,
    incoming: I,
}

impl<E, I> Running<E, I> {
    /// The endpoint the bind produced.
    pub closed spec fn endpoint(&self) -> E {
        self.endpoint
    }

    /// The inbound sequence the bind produced.
    pub closed spec fn incoming(&self) -> I {
        self.incoming
    }
}

impl Sealed for Stopped {}

impl State for Stopped {}

impl<E, I> Sealed for Running<E, I> {}

impl<E, I> State for Running<E, I> {}

/// Owns a transport for its whole life, plus the payload of its current phase.
/// Which operations exist depends on the phase, and each transition consumes
/// the value it starts from. Only `new`, `start` and `stop` make one, so
/// `accept` and `connect` are reachable only through a successful `start`.
pub struct Protocol<T, St> {
    transport: T,
    state: St,
}

impl<T, St> Protocol<T, St> {
    /// The transport this protocol owns.
    pub closed spec fn transport(&self) -> T {
        self.transport
    }

    /// The payload of the current phase.
    pub closed spec fn state(&self) -> St {
        self.state
    }
}

impl<T: Transport> Protocol<T, Stopped> {
    /// A protocol around `transport`, in the stopped phase.
    pub fn new(transport: T) -> (r: Protocol<T, Stopped>)
        ensures
            r.transport() == transport,
    {
        Protocol { transport, state: Stopped }
    }
}

/// The running protocol that a bind answering `bound` leads to, or the bind's
/// failure.
pub closed spec fn running_after<T, E, I>(transport: T, bound: Result<(E, I), Error>) -> Result<
    Protocol<T, Running<E, I>>,
    Error,
> {
    match bound {
        Ok((endpoint, incoming)) => Ok(
            Protocol { transport, state: Running { endpoint, incoming } },
        ),
        Err(e) => Err(e),
    }
}

/// The stopped protocol that a shutdown answering `outcome` leads to, or the
/// shutdown's failure.
pub closed spec fn stopped_after<T>(transport: T, outcome: Result<(), Error>) -> Result<
    Protocol<T, Stopped>,
    Error,
> {
    match outcome {
        Ok(()) => Ok(Protocol { transport, state: Stopped }),
        Err(e) => Err(e),
    }
}

impl<T: Transport> Protocol<T, Stopped> {
    /// Binds the transport and enters the running phase with what the bind
    /// produced. A failed bind consumes the transport: binding again takes a
    /// new one.
    pub fn start(self, bind_info: BindInfo) -> (r: Result<Protocol<T, Running<T::Endpoint, T::Incoming>>, Error>)
        ensures
            exists|bound: Result<(T::Endpoint, T::Incoming), Error>|
                r == #[trigger] running_after(self.transport(), bound),
            r is Ok ==> r->Ok_0.transport() == self.transport(),
    {
        let bound = self.transport.bind(bind_info);
        let r = self.enter_running(bound);
        assert(r == running_after(self.transport(), bound));
        r
    }

    /// The transition that `start` makes once the bind has answered `bound`.
    fn enter_running(self, bound: Result<(T::Endpoint, T::Incoming), Error>) -> (r: Result<
        Protocol<T, Running<T::Endpoint, T::Incoming>>,
        Error,
    >)
        ensures
            r == running_after(self.transport(), bound),
    {
        match bound {
            Ok((endpoint, incoming)) => Ok(
                Protocol { transport: self.transport, state: Running { endpoint, incoming } },
            ),
            Err(e) => Err(e),
        }
    }
}

/// What one accept yields for the next inbound item, `None` once the inbound
/// sequence has ended.
pub open spec fn accept_outcome<C>(item: Option<Result<C, Error>>) -> Result<Peer<C>, Error> {
    match item {
        Some(Ok(connection)) => Ok(Peer { connection, origin: Origin::Incoming }),
        Some(Err(e)) => Err(e),
        None => Err(Error::AcceptTerminated),
    }
}

/// What one connect yields for what the dial returned.
pub open spec fn connect_outcome<C>(dialed: Result<C, Error>) -> Result<Peer<C>, Error> {
    match dialed {
        Ok(connection) => Ok(Peer { connection, origin: Origin::Outgoing }),
        Err(e) => Err(e),
    }
}

/// One accept on the items still pending: its result, and the items pending
/// after it. An ended sequence stays ended.
pub open spec fn accept_step<C>(pending: Seq<Result<C, Error>>) -> (Result<Peer<C>, Error>, Seq<
    Result<C, Error>,
>) {
    if pending.len() > 0 {
        (accept_outcome(Some(pending[0])), pending.drop_first())
    } else {
        (accept_outcome(None), pending)
    }
}

/// Turns the next inbound item into the result of an accept.
pub fn accept_item<C>(item: Option<Result<C, Error>>) -> (r: Result<Peer<C>, Error>)
    ensures
        r == accept_outcome(item),
{
    match item {
        Some(Ok(connection)) => Ok(Peer::from(Direction::Incoming(connection))),
        Some(Err(e)) => Err(e),
        None => Err(Error::AcceptTerminated),
    }
}

/// Turns what a dial returned into the result of a connect.
pub fn connect_result<C>(dialed: Result<C, Error>) -> (r: Result<Peer<C>, Error>)
    ensures
        r == connect_outcome(dialed),
{
    match dialed {
        Ok(connection) => Ok(Peer::from(Direction::Outgoing(connection))),
        Err(e) => Err(e),
    }
}

impl<T, E, I> Protocol<T, Running<E, I>> where
    T: Transport,
    E: Endpoint,
    I: Iterator<Item = Result<E::Connection, Error>>,
 {
    /// Pulls the next inbound item and wraps it as an incoming peer. A failed
    /// item is passed on as it is; an ended sequence gives `AcceptTerminated`.
    pub fn accept(&mut self) -> (r: Result<Peer<E::Connection>, Error>)
        ensures
            final(self).transport() == old(self).transport(),
            final(self).state().endpoint() == old(self).state().endpoint(),
            old(self).state().incoming().obeys_prophetic_iter_laws() ==> {
                &&& final(self).state().incoming().obeys_prophetic_iter_laws()
                &&& (r, final(self).state().incoming().remaining()) == accept_step(
                    old(self).state().incoming().remaining(),
                )
            },
    {
        let item = self.state.incoming.next();
        accept_item(item)
    }

    /// Dials through the endpoint and wraps the connection as an outgoing peer.
    /// A failed dial is passed on as it is.
    pub fn connect(&self) -> (r: Result<Peer<E::Connection>, Error>)
        ensures
            r matches Ok(peer) ==> peer.origin == Origin::Outgoing,
    {
        let dialed = self.state.endpoint.connect();
        connect_result(dialed)
    }

    /// Shuts the transport down and returns to the stopped phase. Whatever
    /// the outcome, the endpoint and the inbound sequence are dropped.
    pub fn stop(self) -> (r: Result<Protocol<T, Stopped>, Error>)
        ensures
            exists|outcome: Result<(), Error>| r == #[trigger] stopped_after(self.transport(), outcome),
            r is Ok ==> r->Ok_0.transport() == self.transport(),
    {
        let outcome = self.transport.shutdown();
        let r = self.enter_stopped(outcome);
        assert(r == stopped_after(self.transport(), outcome));
        r
    }

    /// The transition that `stop` makes once the shutdown has answered
    /// `outcome`.
    fn enter_stopped(self, outcome: Result<(), Error>) -> (r: Result<Protocol<T, Stopped>, Error>)
        ensures
            r == stopped_after(self.transport(), outcome),
    {
        match outcome {
            Ok(()) => Ok(Protocol { transport: self.transport, state: Stopped }),
            Err(e) => Err(e),
        }
    }
}

/// The results of `n` accepts in a row, starting with `pending` still to come.
pub open spec fn accept_run<C>(pending: Seq<Result<C, Error>>, n: nat) -> Seq<Result<Peer<C>, Error>>
    decreases n,
{
    if n == 0 {
        Seq::empty()
    } else {
        let (first, rest) = accept_step(pending);
        seq![first].add(accept_run(rest, (n - 1) as nat))
    }
}

/// Accepting from a sequence that yields `items` and then ends: the first
/// `items.len()` accepts give, in order, an incoming peer for each success and
/// each failure as it is; every accept after that gives `AcceptTerminated`.
pub proof fn lemma_accept_exhausts<C>(items: Seq<Result<C, Error>>, extra: nat)
    ensures
        accept_run(items, items.len() + 1 + extra) == items.map_values(
            |item: Result<C, Error>| accept_outcome(Some(item)),
        ).add(Seq::new(extra + 1, |i: int| Err::<Peer<C>, Error>(Error::AcceptTerminated))),
    decreases items.len(),
{
    let terminated = Seq::new(extra + 1, |i: int| Err::<Peer<C>, Error>(Error::AcceptTerminated));
    if items.len() == 0 {
        lemma_accept_after_end(items, extra + 1);
        assert(items.map_values(|item: Result<C, Error>| accept_outcome(Some(item))).add(terminated)
            =~= terminated);
    } else {
        let rest = items.drop_first();
        lemma_accept_exhausts(rest, extra);
        assert(items.len() + 1 + extra - 1 == rest.len() + 1 + extra);
        let mapped = items.map_values(|item: Result<C, Error>| accept_outcome(Some(item)));
        let mapped_rest = rest.map_values(|item: Result<C, Error>| accept_outcome(Some(item)));
        assert(mapped.add(terminated) =~= seq![accept_outcome(Some(items[0]))].add(
            mapped_rest.add(terminated),
        ));
    }
}

/// Once the inbound sequence has ended, every further accept gives
/// `AcceptTerminated`.
pub proof fn lemma_accept_after_end<C>(pending: Seq<Result<C, Error>>, n: nat)
    requires
        pending.len() == 0,
    ensures
        accept_run(pending, n) == Seq::new(n, |i: int| Err::<Peer<C>, Error>(Error::AcceptTerminated)),
    decreases n,
{
    if n > 0 {
        lemma_accept_after_end(pending, (n - 1) as nat);
        assert(accept_run(pending, n) =~= Seq::new(
            n,
            |i: int| Err::<Peer<C>, Error>(Error::AcceptTerminated),
        ));
    } else {
        assert(accept_run(pending, n) =~= Seq::new(
            n,
            |i: int| Err::<Peer<C>, Error>(Error::AcceptTerminated),
        ));
    }
}

/// Tagging a connection as incoming or as outgoing gives peers that hold the
/// same connection and differ only in their origin.
pub proof fn lemma_direction_tagging<C>(connection: C)
    ensures
        Direction::Incoming(connection).connection() == connection,
        Direction::Outgoing(connection).connection() == connection,
        Direction::Incoming(connection).origin() == Origin::Incoming,
        Direction::Outgoing(connection).origin() == Origin::Outgoing,
{
}

/// Start, stop and start again: when the bind, the shutdown and the second
/// bind all succeed, each step succeeds, the transport is the same one
/// throughout, and the protocol ends up holding what the second bind produced.
pub proof fn lemma_lifecycle_round_trip<T, E, I>(transport: T, first: (E, I), second: (E, I))
    ensures
        ({
            let running = running_after(transport, Ok::<(E, I), Error>(first));
            &&& running is Ok
            &&& running->Ok_0.transport() == transport
            &&& running->Ok_0.state().endpoint() == first.0
            &&& running->Ok_0.state().incoming() == first.1
            &&& stopped_after(running->Ok_0.transport(), Ok(())) is Ok
            &&& stopped_after(running->Ok_0.transport(), Ok(()))->Ok_0.transport() == transport
        }),
        ({
            let stopped = stopped_after(transport, Ok(()))->Ok_0;
            let again = running_after(stopped.transport(), Ok::<(E, I), Error>(second));
            &&& again is Ok
            &&& again->Ok_0.transport() == transport
            &&& again->Ok_0.state().endpoint() == second.0
            &&& again->Ok_0.state().incoming() == second.1
        }),
{
}

/// A failed bind hands back its error and no protocol.
pub proof fn lemma_failed_bind<T, E, I>(transport: T, e: Error)
    ensures
        running_after(transport, Err::<(E, I), Error>(e)) == Err::<Protocol<T, Running<E, I>>, Error>(e),
{
}

/// A failed shutdown hands back its error and no protocol: the endpoint and
/// the inbound sequence are gone, and only a new start can resume work.
pub proof fn lemma_failed_shutdown_drops_state<T>(transport: T, e: Error)
    ensures
        stopped_after(transport, Err(e)) == Err::<Protocol<T, Stopped>, Error>(e),
{
}

} // verus!
