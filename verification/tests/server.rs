use multiaddr::{Multiaddr, Protocol};
use sui_wire::address::{
    endpoint, tcp_port, try_update_tcp_port, update_tcp_port_in_multiaddr, BindError, Endpoint,
};
use std::time::Duration;
use sui_wire::server::{Config, Layer, Listening, Server, ServerBuilder, Setting};

fn unix_address(path: &str) -> Multiaddr {
    Multiaddr::empty().with(Protocol::Unix(path.into())).with(Protocol::Http)
}

// Goes through what a server goes through for an address, short of opening
// the listener: the port that the system would assign is given instead.
fn test_multiaddr(address: Multiaddr, assigned: Listening) -> Server<&'static str, u8, &'static str> {
    let config = Config::new();
    let builder = config.server_builder("health");
    builder.bind(&address).unwrap();
    let mut server = builder.bound(address, assigned, "future", 7u8);
    let cancel_handle = server.take_cancel_handle().unwrap();
    assert_eq!(cancel_handle, 7);
    assert_eq!(server.take_cancel_handle(), None);
    assert_eq!(server.take_cancel_handle(), None);
    assert_eq!(server.health_reporter(), "health");
    server
}

#[test]
fn document_multiaddr_limitation_for_unix_protocol() {
    // You can construct a multiaddr by hand (ie binary format) just fine
    let path = "/tmp/foo";
    let addr = unix_address(path);

    // But it doesn't round-trip in the human readable format
    let s = addr.to_string();
    assert!(s.parse::<Multiaddr>().is_err());
}

#[test]
fn dns() {
    let address: Multiaddr = "/dns/localhost/tcp/0/http".parse().unwrap();
    assert_eq!(
        endpoint(&address),
        Ok(Endpoint::Dns { name: "localhost".to_string(), port: 0 })
    );
    let server = test_multiaddr(address, Listening::Tcp { port: 40123 });
    assert_eq!(server.local_addr().to_string(), "/dns/localhost/tcp/40123/http");
    assert_eq!(server.serve(), "future");
}

#[test]
fn ip4() {
    let address: Multiaddr = "/ip4/127.0.0.1/tcp/0/http".parse().unwrap();
    assert_eq!(endpoint(&address), Ok(Endpoint::Ip4 { ip4: [127, 0, 0, 1], port: 0 }));
    let server = test_multiaddr(address, Listening::Tcp { port: 9 });
    assert_eq!(server.local_addr().to_string(), "/ip4/127.0.0.1/tcp/9/http");
}

#[test]
fn ip6() {
    let address: Multiaddr = "/ip6/::1/tcp/0/http".parse().unwrap();
    let mut octets = [0u8; 16];
    octets[15] = 1;
    assert_eq!(endpoint(&address), Ok(Endpoint::Ip6 { ip6: octets, port: 0 }));
    let server = test_multiaddr(address, Listening::Tcp { port: 65535 });
    assert_eq!(server.local_addr().to_string(), "/ip6/::1/tcp/65535/http");
}

#[test]
fn unix() {
    // Note that this only works when constructing a multiaddr by hand and not via the
    // human-readable format
    let path = "unix-domain-socket";
    let address = unix_address(path);
    assert_eq!(endpoint(&address), Ok(Endpoint::Unix { path: path.to_string() }));
    let server = test_multiaddr(address.clone(), Listening::Unix);
    assert_eq!(server.local_addr(), &address);
}

#[should_panic]
#[test]
fn missing_http_protocol() {
    let address: Multiaddr = "/dns/localhost/tcp/0".parse().unwrap();
    test_multiaddr(address, Listening::Tcp { port: 1 });
}

#[test]
fn missing_marker_is_a_malformed_address() {
    for text in ["/dns/localhost/tcp/0", "/ip4/127.0.0.1/tcp/80", "/ip6/::1", "/dns/localhost/http"] {
        let address: Multiaddr = text.parse().unwrap();
        let e = endpoint(&address).unwrap_err();
        assert_eq!(e, BindError::MalformedAddress);
        assert_eq!(e.message(), "malformed addr");
    }
    let bare_unix = Multiaddr::empty().with(Protocol::Unix("sock".into()));
    assert_eq!(endpoint(&bare_unix), Err(BindError::MalformedAddress));
}

#[test]
fn segments_after_the_marker_are_refused() {
    let address: Multiaddr = "/ip4/127.0.0.1/tcp/80/http/tcp/1".parse().unwrap();
    assert_eq!(endpoint(&address), Err(BindError::MalformedAddress));
    let address = unix_address("sock").with(Protocol::Http);
    assert_eq!(endpoint(&address), Err(BindError::MalformedAddress));
}

#[test]
fn https_closes_an_address_too() {
    let address: Multiaddr = "/dns/example.org/tcp/443/https".parse().unwrap();
    assert_eq!(
        endpoint(&address),
        Ok(Endpoint::Dns { name: "example.org".to_string(), port: 443 })
    );
}

#[test]
fn empty_address_is_malformed() {
    let e = endpoint(&Multiaddr::empty()).unwrap_err();
    assert_eq!(e, BindError::MalformedAddress);
    assert_eq!(e.message(), "malformed addr");
}

#[test]
fn other_first_segments_are_unsupported_by_name() {
    for text in ["/udp/1234", "/tcp/80/http", "/http", "/https", "/dns4/localhost/tcp/1/http", "/memory/5"] {
        let address: Multiaddr = text.parse().unwrap();
        let first = address.iter().next().unwrap().to_string();
        let e = endpoint(&address).unwrap_err();
        assert_eq!(e, BindError::UnsupportedProtocol(first.clone()));
        assert_eq!(e.message(), format!("unsupported protocol {}", first));
    }
    let address: Multiaddr = "/udp/1234".parse().unwrap();
    assert_eq!(endpoint(&address).unwrap_err().message(), "unsupported protocol /udp/1234");
    let address: Multiaddr = "/tcp/80".parse().unwrap();
    assert_eq!(endpoint(&address).unwrap_err().message(), "unsupported protocol /tcp/80");
}

#[test]
fn port_is_rewritten_in_the_second_segment_only() {
    let address: Multiaddr = "/ip4/10.0.0.1/tcp/0/http".parse().unwrap();
    assert_eq!(tcp_port(&address), Some(0));
    let updated = update_tcp_port_in_multiaddr(&address, 8080);
    assert_eq!(updated.to_string(), "/ip4/10.0.0.1/tcp/8080/http");
    assert_eq!(tcp_port(&updated), Some(8080));
    assert_eq!(address.to_string(), "/ip4/10.0.0.1/tcp/0/http");
    assert_eq!(try_update_tcp_port(&address, 8080), Some(updated));
}

#[test]
fn concrete_port_stays_when_it_is_assigned() {
    let address: Multiaddr = "/dns/localhost/tcp/8080/http".parse().unwrap();
    assert_eq!(update_tcp_port_in_multiaddr(&address, 8080), address);
}

#[test]
fn address_without_tcp_in_second_place_is_not_rewritten() {
    assert_eq!(tcp_port(&Multiaddr::empty()), None);
    assert_eq!(try_update_tcp_port(&Multiaddr::empty(), 1), None);
    let only_host: Multiaddr = "/ip4/10.0.0.1".parse().unwrap();
    assert_eq!(tcp_port(&only_host), None);
    assert_eq!(try_update_tcp_port(&only_host, 1), None);
    let unix = unix_address("sock");
    assert_eq!(tcp_port(&unix), None);
    assert_eq!(try_update_tcp_port(&unix, 1), None);
    let tcp_first: Multiaddr = "/tcp/1/tcp/2".parse().unwrap();
    assert_eq!(try_update_tcp_port(&tcp_first, 9).unwrap().to_string(), "/tcp/1/tcp/9");
}

#[test]
fn new_configuration_sets_nothing() {
    let config = Config::new();
    assert_eq!(config.concurrency_limit_per_connection, None);
    assert_eq!(config.global_concurrency_limit, None);
    assert_eq!(config.load_shed, None);
    assert_eq!(config.request_timeout, None);
    assert_eq!(config.tcp_nodelay, None);
    assert_eq!(config.tcp_keepalive, None);
    assert_eq!(config.http2_initial_stream_window_size, None);
    assert_eq!(config.http2_initial_connection_window_size, None);
    assert_eq!(config.http2_keepalive_interval, None);
    assert_eq!(config.http2_keepalive_timeout, None);
    assert_eq!(config.http2_max_concurrent_streams, None);
}

#[test]
fn builder_starts_with_the_health_service_and_no_middleware() {
    let config = Config::new();
    let builder = ServerBuilder::from_config(&config, 1u8);
    assert_eq!(
        builder.settings(),
        &vec![
            Setting::Http2InitialStreamWindowSize(None),
            Setting::Http2InitialConnectionWindowSize(None),
            Setting::Http2KeepaliveInterval(None),
            Setting::Http2KeepaliveTimeout(None),
            Setting::Http2MaxConcurrentStreams(None),
            Setting::TcpKeepalive(None),
        ]
    );
    assert!(builder.layers().is_empty());
    assert_eq!(builder.services(), &vec!["grpc.health.v1.Health".to_string()]);
    assert_eq!(builder.health_reporter(), 1);
}

#[test]
fn load_shedding_wraps_the_global_limit() {
    let mut config = Config::new();
    config.global_concurrency_limit = Some(1);
    config.load_shed = Some(true);
    let builder = ServerBuilder::from_config(&config, ());
    assert_eq!(builder.layers(), &vec![Layer::LoadShed, Layer::GlobalConcurrencyLimit(1)]);
}

#[test]
fn layers_are_absent_where_they_are_not_asked_for() {
    let mut config = Config::new();
    config.load_shed = Some(false);
    assert!(ServerBuilder::from_config(&config, ()).layers().is_empty());
    config.global_concurrency_limit = Some(250);
    assert_eq!(
        ServerBuilder::from_config(&config, ()).layers(),
        &vec![Layer::GlobalConcurrencyLimit(250)]
    );
    config.load_shed = None;
    assert_eq!(
        ServerBuilder::from_config(&config, ()).layers(),
        &vec![Layer::GlobalConcurrencyLimit(250)]
    );
    config.global_concurrency_limit = None;
    config.load_shed = Some(true);
    assert_eq!(ServerBuilder::from_config(&config, ()).layers(), &vec![Layer::LoadShed]);
}

#[test]
fn settings_are_listed_in_the_order_they_are_applied() {
    let mut config = Config::new();
    config.concurrency_limit_per_connection = Some(16);
    config.request_timeout = Some(Duration::from_secs(30));
    config.tcp_nodelay = Some(true);
    config.tcp_keepalive = Some(Duration::from_millis(5));
    config.http2_initial_stream_window_size = Some(1 << 20);
    config.http2_initial_connection_window_size = Some(1 << 21);
    config.http2_keepalive_interval = Some(Duration::from_secs(1));
    config.http2_keepalive_timeout = Some(Duration::from_secs(2));
    config.http2_max_concurrent_streams = Some(100);
    let builder = config.server_builder(());
    assert_eq!(
        builder.settings(),
        &vec![
            Setting::ConcurrencyLimitPerConnection(16),
            Setting::RequestTimeout(Duration::from_secs(30)),
            Setting::TcpNodelay(true),
            Setting::Http2InitialStreamWindowSize(Some(1 << 20)),
            Setting::Http2InitialConnectionWindowSize(Some(1 << 21)),
            Setting::Http2KeepaliveInterval(Some(Duration::from_secs(1))),
            Setting::Http2KeepaliveTimeout(Some(Duration::from_secs(2))),
            Setting::Http2MaxConcurrentStreams(Some(100)),
            Setting::TcpKeepalive(Some(Duration::from_millis(5))),
        ]
    );
}

#[test]
fn unset_transport_options_are_left_out() {
    let mut config = Config::new();
    config.request_timeout = Some(Duration::from_secs(3));
    let builder = config.server_builder(());
    assert_eq!(builder.settings().len(), 7);
    assert_eq!(builder.settings()[0], Setting::RequestTimeout(Duration::from_secs(3)));
    config.request_timeout = None;
    config.tcp_nodelay = Some(false);
    let builder = config.server_builder(());
    assert_eq!(builder.settings().len(), 7);
    assert_eq!(builder.settings()[0], Setting::TcpNodelay(false));
}

#[test]
fn services_are_registered_in_order() {
    let builder = Config::new().server_builder(()).add_service("a.B").add_service("c.D");
    assert_eq!(
        builder.services(),
        &vec!["grpc.health.v1.Health".to_string(), "a.B".to_string(), "c.D".to_string()]
    );
    assert!(builder.layers().is_empty());
}

#[test]
fn cancel_handle_is_handed_out_once() {
    let address: Multiaddr = "/ip4/127.0.0.1/tcp/0/http".parse().unwrap();
    let builder = Config::new().server_builder(());
    let mut server = builder.bound(address, Listening::Tcp { port: 5 }, (), "sender".to_string());
    assert_eq!(server.take_cancel_handle(), Some("sender".to_string()));
    assert_eq!(server.take_cancel_handle(), None);
    assert_eq!(server.local_addr().to_string(), "/ip4/127.0.0.1/tcp/5/http");
}
