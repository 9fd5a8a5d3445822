//! The decisions of the server builder: what is set on the transport, which
//! middleware wraps the services and in what order, where to listen, and what
//! the bound server holds.

use crate::address::{
    endpoint, resolves, segments, spec_tcp_port, update_tcp_port_in_multiaddr, BindError,
    Endpoint, Segment,
};
use multiaddr::Multiaddr;
use std::time::Duration;
use vstd::prelude::*;
use vstd::string::*;

verus! {

/// The knobs of a server. A knob that is not set leaves the transport's own
/// default in place.
#[derive(Debug, Clone, Copy, PartialEq, Eq)]
pub struct Config {
    /// How many requests one connection may have in flight.
    pub concurrency_limit_per_connection: Option<u32>,
    /// How many requests the whole server may have in flight.
    pub global_concurrency_limit: Option<u32>,
    /// Whether a request that would have to wait is turned away at once.
    pub load_shed: Option<bool>,
    /// After how long a handler is given up on.
    pub request_timeout: Option<Duration>,
    pub tcp_nodelay: Option<bool>,
    pub tcp_keepalive: Option<Duration>,
    pub http2_initial_stream_window_size: Option<u32>,
    pub http2_initial_connection_window_size: Option<u32>,
    pub http2_keepalive_interval: Option<Duration>,
    pub http2_keepalive_timeout: Option<Duration>,
    pub http2_max_concurrent_streams: Option<u32>,
}

/// The configuration in which no knob is set.
pub open spec fn unset() -> Config {
    Config {
        concurrency_limit_per_connection: None,
        global_concurrency_limit: None,
        load_shed: None,
        request_timeout: None,
        tcp_nodelay: None,
        tcp_keepalive: None,
        http2_initial_stream_window_size: None,
        http2_initial_connection_window_size: None,
        http2_keepalive_interval: None,
        http2_keepalive_timeout: None,
        http2_max_concurrent_streams: None,
    }
}

impl Config {
    pub fn new() -> (config: Config)
        ensures
            config == unset(),
    {
        Config {
            concurrency_limit_per_connection: None,
            global_concurrency_limit: None,
            load_shed: None,
            request_timeout: None,
            tcp_nodelay: None,
            tcp_keepalive: None,
            http2_initial_stream_window_size: None,
            http2_initial_connection_window_size: None,
            http2_keepalive_interval: None,
            http2_keepalive_timeout: None,
            http2_max_concurrent_streams: None,
        }
    }

    /// The builder for a server with this configuration; `health_reporter`
    /// is the handle to the health service that the server will offer.
    pub fn server_builder<H>(&self, health_reporter: H) -> (builder: ServerBuilder<H>)
        ensures
            built_from(*self, health_reporter, builder),
    {
        ServerBuilder::from_config(self, health_reporter)
    }
}

/// One layer of middleware around the services.
#[derive(Debug, Clone, Copy, PartialEq, Eq, Structural)]
pub enum Layer {
    /// Turns a request away at once where the layer below is not ready.
    LoadShed,
    /// Lets at most so many requests through at a time, over all connections.
    GlobalConcurrencyLimit(u32),
}

/// The middleware that a configuration asks for, outermost first: load
/// shedding where it is switched on, then the global limit where one is set.
pub open spec fn middleware(config: Config) -> Seq<Layer> {
    let shed = if config.load_shed == Some(true) {
        seq![Layer::LoadShed]
    } else {
        Seq::empty()
    };
    let limit = match config.global_concurrency_limit {
        Some(n) => seq![Layer::GlobalConcurrencyLimit(n)],
        None => Seq::empty(),
    };
    shed + limit
}

/// One thing to set on the transport.
#[derive(Debug, Clone, Copy, PartialEq, Eq)]
pub enum Setting {
    ConcurrencyLimitPerConnection(u32),
    RequestTimeout(Duration),
    TcpNodelay(bool),
    Http2InitialStreamWindowSize(Option<u32>),
    Http2InitialConnectionWindowSize(Option<u32>),
    Http2KeepaliveInterval(Option<Duration>),
    Http2KeepaliveTimeout(Option<Duration>),
    Http2MaxConcurrentStreams(Option<u32>),
    TcpKeepalive(Option<Duration>),
}

/// The three knobs of the transport itself, each only where it is set.
pub open spec fn transport_options(config: Config) -> Seq<Setting> {
    let limit = match config.concurrency_limit_per_connection {
        Some(n) => seq![Setting::ConcurrencyLimitPerConnection(n)],
        None => Seq::empty(),
    };
    let timeout = match config.request_timeout {
        Some(t) => seq![Setting::RequestTimeout(t)],
        None => Seq::empty(),
    };
    let nodelay = match config.tcp_nodelay {
        Some(b) => seq![Setting::TcpNodelay(b)],
        None => Seq::empty(),
    };
    limit + timeout + nodelay
}

/// The tuning of HTTP/2 and of TCP keepalive, each handed on set or not.
pub open spec fn tuning(config: Config) -> Seq<Setting> {
    seq![
        Setting::Http2InitialStreamWindowSize(config.http2_initial_stream_window_size),
        Setting::Http2InitialConnectionWindowSize(config.http2_initial_connection_window_size),
        Setting::Http2KeepaliveInterval(config.http2_keepalive_interval),
        Setting::Http2KeepaliveTimeout(config.http2_keepalive_timeout),
        Setting::Http2MaxConcurrentStreams(config.http2_max_concurrent_streams),
        Setting::TcpKeepalive(config.tcp_keepalive),
    ]
}

/// What a configuration sets on the transport, in the order in which it is
/// applied: the transport's own knobs, then the tuning.
pub open spec fn settings(config: Config) -> Seq<Setting> {
    transport_options(config) + tuning(config)
}

/// The name under which the health service answers.
pub open spec fn health_service_name() -> Seq<char> {
    "grpc.health.v1.Health"@
}

/// A server in the making: the transport's settings, the middleware stack,
/// the names of the services registered so far, and the handle to the health
/// service.
#[derive(Debug)]
pub struct ServerBuilder<H> {
    settings: Vec<Setting>,
    layers: Vec<Layer>,
    services: Vec<String>,
    health_reporter: H,
}

/// Whether `builder` is what a configuration and a health reporter start
/// with: the settings and the middleware that the configuration asks for,
/// and the health service as the one registered service.
pub open spec fn built_from<H>(config: Config, health_reporter: H, builder: ServerBuilder<H>) -> bool {
    &&& builder.spec_settings() == settings(config)
    &&& builder.spec_layers() == middleware(config)
    &&& builder.spec_services().len() == 1
    &&& builder.spec_services()[0]@ == health_service_name()
    &&& builder.spec_health_reporter() == health_reporter
}

/// Whether `after` is `before` with one more service, named `name`, behind
/// those that it had.
pub open spec fn registered<H>(before: ServerBuilder<H>, name: Seq<char>, after: ServerBuilder<H>) -> bool {
    &&& after.spec_settings() == before.spec_settings()
    &&& after.spec_layers() == before.spec_layers()
    &&& after.spec_health_reporter() == before.spec_health_reporter()
    &&& after.spec_services().len() == before.spec_services().len() + 1
    &&& after.spec_services().last()@ == name
    &&& after.spec_services().drop_last() == before.spec_services()
}

impl<H> ServerBuilder<H> {
    /// What is set on the transport, in the order in which it is applied.
    pub closed spec fn spec_settings(&self) -> Seq<Setting> {
        self.settings@
    }

    /// The middleware, outermost first.
    pub closed spec fn spec_layers(&self) -> Seq<Layer> {
        self.layers@
    }

    /// The names of the registered services, in the order they were added.
    pub closed spec fn spec_services(&self) -> Seq<String> {
        self.services@
    }

    pub closed spec fn spec_health_reporter(&self) -> H {
        self.health_reporter
    }

    /// Starts a builder: lists what the configuration sets on the transport,
    /// stacks the middleware that it asks for, and registers the health
    /// service.
    pub fn from_config(config: &Config, health_reporter: H) -> (builder: Self)
        ensures
            built_from(*config, health_reporter, builder),
    {
        let mut list: Vec<Setting> = Vec::new();
        match config.concurrency_limit_per_connection {
            Some(limit) => {
                list.push(Setting::ConcurrencyLimitPerConnection(limit));
            },
            None => {},
        }
        match config.request_timeout {
            Some(timeout) => {
                list.push(Setting::RequestTimeout(timeout));
            },
            None => {},
        }
        match config.tcp_nodelay {
            Some(tcp_nodelay) => {
                list.push(Setting::TcpNodelay(tcp_nodelay));
            },
            None => {},
        }
        assert(list@ =~= transport_options(*config));
        list.push(Setting::Http2InitialStreamWindowSize(config.http2_initial_stream_window_size));
        list.push(
            Setting::Http2InitialConnectionWindowSize(config.http2_initial_connection_window_size),
        );
        list.push(Setting::Http2KeepaliveInterval(config.http2_keepalive_interval));
        list.push(Setting::Http2KeepaliveTimeout(config.http2_keepalive_timeout));
        list.push(Setting::Http2MaxConcurrentStreams(config.http2_max_concurrent_streams));
        list.push(Setting::TcpKeepalive(config.tcp_keepalive));
        assert(list@ =~= settings(*config));

        let mut layers: Vec<Layer> = Vec::new();
        match config.load_shed {
            Some(true) => {
                layers.push(Layer::LoadShed);
            },
            _ => {},
        }
        match config.global_concurrency_limit {
            Some(limit) => {
                layers.push(Layer::GlobalConcurrencyLimit(limit));
            },
            None => {},
        }
        let mut services: Vec<String> = Vec::new();
        services.push(String::from_str("grpc.health.v1.Health"));
        assert(layers@ =~= middleware(*config));
        ServerBuilder { settings: list, layers, services, health_reporter }
    }

    /// What is set on the transport, in the order in which it is applied.
    pub fn settings(&self) -> (settings: &Vec<Setting>)
        ensures
            settings@ == self.spec_settings(),
    {
        &self.settings
    }

    /// The middleware, outermost first.
    pub fn layers(&self) -> (layers: &Vec<Layer>)
        ensures
            layers@ == self.spec_layers(),
    {
        &self.layers
    }

    /// The names of the registered services, in the order they were added.
    pub fn services(&self) -> (services: &Vec<String>)
        ensures
            services@ == self.spec_services(),
    {
        &self.services
    }

    pub fn health_reporter(&self) -> (reporter: H) where H: Clone
        ensures
            cloned(self.spec_health_reporter(), reporter),
    {
        self.health_reporter.clone()
    }

    /// Registers one more service under its name.
    pub fn add_service(self, name: &str) -> (builder: Self)
        ensures
            registered(self, name@, builder),
    {
        let mut builder = self;
        builder.services.push(String::from_str(name));
        assert(builder.services@.drop_last() =~= self.services@);
        builder
    }

    /// Where the address asks the server to listen, or why the server cannot
    /// listen there.
    pub fn bind(&self, addr: &Multiaddr) -> (out: Result<Endpoint, BindError>)
        ensures
            resolves(segments(*addr), out),
    {
        endpoint(addr)
    }

    /// The server that stands once the listener is open: it reports the
    /// address it was asked for, with the port that was assigned where it
    /// listens on TCP, and holds the sender of the cancellation signal.
    pub fn bound<F, C>(
        self,
        addr: Multiaddr,
        listening: Listening,
        server: F,
        cancel_handle: C,
    ) -> (bound: Server<F, C, H>)
        requires
            listening is Tcp ==> spec_tcp_port(segments(addr)) is Some,
        ensures
            segments(bound.spec_local_addr()) == reported(segments(addr), listening),
            bound.spec_cancel_handle() == Some(cancel_handle),
            bound.spec_server() == server,
            bound.spec_health_reporter() == self.spec_health_reporter(),
    {
        let local_addr = match listening {
            Listening::Tcp { port } => update_tcp_port_in_multiaddr(&addr, port),
            Listening::Unix => addr,
        };
        Server {
            server,
            cancel_handle: Some(cancel_handle),
            local_addr,
            health_reporter: self.health_reporter,
        }
    }
}

/// What an open listener listens on.
#[derive(Debug, Clone, Copy, PartialEq, Eq, Structural)]
pub enum Listening {
    /// A TCP port, as the system assigned it.
    Tcp { port: u16 },
    /// A Unix domain socket.
    Unix,
}

/// The segments of the address that a server reports: those it was asked
/// for, with the assigned port in place of the one asked for.
pub open spec fn reported(asked: Seq<Segment>, listening: Listening) -> Seq<Segment> {
    match listening {
        Listening::Tcp { port } => asked.update(1, Segment::Tcp(port)),
        Listening::Unix => asked,
    }
}

/// A bound server: the future that serves, the sender of the cancellation
/// signal until it is taken, the address it listens on, and the handle to
/// the health service.
pub struct Server<F, C, H> {
    server: F,
    cancel_handle: Option<C>,
    local_addr: Multiaddr,
    health_reporter: H,
}

/// Whether `after` and `taken` are what taking the cancel handle makes of
/// `before`: the handle is handed out, none is left, all else stays.
pub open spec fn takes<F, C, H>(
    before: Server<F, C, H>,
    after: Server<F, C, H>,
    taken: Option<C>,
) -> bool {
    &&& taken == before.spec_cancel_handle()
    &&& after.spec_cancel_handle() is None
    &&& after.spec_server() == before.spec_server()
    &&& after.spec_local_addr() == before.spec_local_addr()
    &&& after.spec_health_reporter() == before.spec_health_reporter()
}

impl<F, C, H> Server<F, C, H> {
    pub closed spec fn spec_server(&self) -> F {
        self.server
    }

    pub closed spec fn spec_cancel_handle(&self) -> Option<C> {
        self.cancel_handle
    }

    pub closed spec fn spec_local_addr(&self) -> Multiaddr {
        self.local_addr
    }

    pub closed spec fn spec_health_reporter(&self) -> H {
        self.health_reporter
    }

    /// Hands out the future that serves until the cancellation signal fires
    /// or the transport fails; the server is used up.
    pub fn serve(self) -> (server: F)
        ensures
            server == self.spec_server(),
    {
        self.server
    }

    pub fn local_addr(&self) -> (addr: &Multiaddr)
        ensures
            *addr == self.spec_local_addr(),
    {
        &self.local_addr
    }

    pub fn health_reporter(&self) -> (reporter: H) where H: Clone
        ensures
            cloned(self.spec_health_reporter(), reporter),
    {
        self.health_reporter.clone()
    }

    /// Hands out the sender of the cancellation signal: the first call gives
    /// it, every later call gives nothing.
    pub fn take_cancel_handle(&mut self) -> (taken: Option<C>)
        ensures
            takes(*old(self), *final(self), taken),
    {
        self.cancel_handle.take()
    }
}

/// Of two takes in a row, the second gives nothing and changes nothing.
pub proof fn lemma_cancel_handle_is_taken_once<F, C, H>(
    s0: Server<F, C, H>,
    s1: Server<F, C, H>,
    s2: Server<F, C, H>,
    first: Option<C>,
    second: Option<C>,
)
    requires
        takes(s0, s1, first),
        takes(s1, s2, second),
    ensures
        first == s0.spec_cancel_handle(),
        second is None,
        takes(s0, s2, first),
{
}

/// A server that listens on TCP reports the address it was asked for with
/// the assigned port in its second segment: as many segments, every other
/// segment as it was, a port other than zero where the assigned one is, and
/// the very address where the assigned port is the one asked for.
pub proof fn lemma_reported_port(asked: Seq<Segment>, port: u16)
    requires
        spec_tcp_port(asked) is Some,
    ensures
        reported(asked, Listening::Tcp { port }).len() == asked.len(),
        reported(asked, Listening::Tcp { port })[1] == Segment::Tcp(port),
        forall|i: int|
            0 <= i < asked.len() && i != 1 ==> #[trigger] reported(
                asked,
                Listening::Tcp { port },
            )[i] == asked[i],
        spec_tcp_port(reported(asked, Listening::Tcp { port })) == Some(port),
        port != 0 ==> spec_tcp_port(reported(asked, Listening::Tcp { port })) != Some(0u16),
        spec_tcp_port(asked) == Some(port) ==> reported(asked, Listening::Tcp { port }) == asked,
{
    if spec_tcp_port(asked) == Some(port) {
        assert(asked.update(1, Segment::Tcp(port)) =~= asked);
    }
}

/// An address of a host, a TCP port and the closing marker is listened on
/// at that host and port, and what the bound server reports differs from it
/// in the port alone.
pub proof fn lemma_tcp_address_is_bound(
    asked: Seq<Segment>,
    out: Result<Endpoint, BindError>,
    port: u16,
)
    requires
        asked.len() == 3,
        asked[0] is Dns || asked[0] is Ip4 || asked[0] is Ip6,
        asked[1] is Tcp,
        asked[2] is Http || asked[2] is Https,
        resolves(asked, out),
    ensures
        match asked[0] {
            Segment::Dns(name) => out == Ok::<Endpoint, BindError>(
                Endpoint::Dns { name, port: asked[1]->Tcp_0 },
            ),
            Segment::Ip4(ip4) => out == Ok::<Endpoint, BindError>(
                Endpoint::Ip4 { ip4, port: asked[1]->Tcp_0 },
            ),
            Segment::Ip6(ip6) => out == Ok::<Endpoint, BindError>(
                Endpoint::Ip6 { ip6, port: asked[1]->Tcp_0 },
            ),
            _ => false,
        },
        reported(asked, Listening::Tcp { port }) == seq![asked[0], Segment::Tcp(port), asked[2]],
{
    assert(reported(asked, Listening::Tcp { port }) =~= seq![
        asked[0],
        Segment::Tcp(port),
        asked[2],
    ]);
}

/// An address without the closing marker is not listened on.
pub proof fn lemma_missing_marker_is_refused(asked: Seq<Segment>, out: Result<Endpoint, BindError>)
    requires
        asked.len() == 2,
        asked[0] is Dns || asked[0] is Ip4 || asked[0] is Ip6,
        asked[1] is Tcp,
        resolves(asked, out),
    ensures
        out == Err::<Endpoint, BindError>(BindError::MalformedAddress),
{
}

} // verus!
