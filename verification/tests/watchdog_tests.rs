use stubdns::config::{Config, InterfaceConfig, Transport, UpstreamServerConfig};
use stubdns::connection::{Connection, TcpConnection};
use stubdns::connection_manager::ConnectionManager;
use stubdns::connection_pool::ConnectionPool;
use stubdns::connection_watchdog::{ConnectionWatchdog, WatchdogAction, WatchdogEvent};

type TestConnection = Connection<(), (), ()>;

fn watchdog() -> ConnectionWatchdog {
    ConnectionWatchdog::new(Config { listen: vec![], upstream_servers: vec![] })
}

fn tcp_connection(host: &str, port: u16) -> TestConnection {
    let server = UpstreamServerConfig {
        host: host.to_string(),
        interfaces: vec![],
        connection_timeout: None,
        write_timeout: None,
        read_timeout: None,
        tls_handshake_timeout: None,
    };
    let interface = InterfaceConfig {
        type_: Transport::Tcp,
        port: Some(port),
        auth_name: None,
        connection_timeout: None,
        write_timeout: None,
        read_timeout: None,
        tls_handshake_timeout: None,
    };
    Connection::Tcp(TcpConnection { config: ConnectionManager.tcp_config(&server, &interface), stream: () })
}

#[test]
fn broken_connection_is_reconnected_with_its_settings() {
    let mut pool = ConnectionPool::new();
    pool.add_connection(tcp_connection("8.8.8.8", 53));
    pool.add_connection(tcp_connection("1.0.0.1", 5353));
    match watchdog().handle_event(&pool, WatchdogEvent::Broken(1)) {
        WatchdogAction::Reconnect { index, server, interface } => {
            assert_eq!(index, 1);
            assert_eq!(server.host, "1.0.0.1");
            assert_eq!(interface.type_, Transport::Tcp);
            assert_eq!(interface.get_port(), 5353);
        }
        other => panic!("unexpected {:?}", other),
    }
}

#[test]
fn unknown_broken_index_is_ignored() {
    let pool: ConnectionPool<TestConnection> = ConnectionPool::new();
    assert!(matches!(watchdog().handle_event(&pool, WatchdogEvent::Broken(0)), WatchdogAction::Ignore));
}

#[test]
fn closed_channel_stops_the_watchdog() {
    let pool: ConnectionPool<TestConnection> = ConnectionPool::new();
    assert!(matches!(watchdog().handle_event(&pool, WatchdogEvent::ChannelClosed), WatchdogAction::Shutdown));
}

#[test]
fn health_check_covers_every_connection() {
    let mut pool = ConnectionPool::new();
    for p in 0..3 {
        pool.add_connection(tcp_connection("127.0.0.1", p));
    }
    match watchdog().handle_event(&pool, WatchdogEvent::HealthCheckDue) {
        WatchdogAction::CheckHealth(indices) => assert_eq!(indices, vec![0, 1, 2]),
        other => panic!("unexpected {:?}", other),
    }
}
