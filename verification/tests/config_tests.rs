use stubdns::config::{
    config_path_from_args, prepare_config, Config, ConfigError, InterfaceConfig, ListenConfig,
    Transport, UpstreamServerConfig, CONNECTION_TIMEOUT, READ_TIMEOUT, TLS_HANDSHAKE_TIMEOUT,
    WRITE_TIMEOUT,
};

fn iface(type_: Transport) -> InterfaceConfig {
    InterfaceConfig {
        type_,
        port: None,
        auth_name: None,
        connection_timeout: None,
        write_timeout: None,
        read_timeout: None,
        tls_handshake_timeout: None,
    }
}

fn server(host: &str, interfaces: Vec<InterfaceConfig>) -> UpstreamServerConfig {
    UpstreamServerConfig {
        host: host.to_string(),
        interfaces,
        connection_timeout: None,
        write_timeout: None,
        read_timeout: None,
        tls_handshake_timeout: None,
    }
}

#[test]
fn port_defaults_by_transport() {
    assert_eq!(iface(Transport::Udp).get_port(), 53);
    assert_eq!(iface(Transport::Tcp).get_port(), 53);
    assert_eq!(iface(Transport::Tls).get_port(), 853);
    let mut i = iface(Transport::Tls);
    i.port = Some(5353);
    assert_eq!(i.get_port(), 5353);
}

#[test]
fn interface_timeouts_default_disable_and_keep() {
    let mut i = iface(Transport::Tcp);
    assert_eq!(i.get_connection_timeout(), Some(CONNECTION_TIMEOUT));
    assert_eq!(i.get_write_timeout(), Some(WRITE_TIMEOUT));
    assert_eq!(i.get_read_timeout(), Some(READ_TIMEOUT));
    assert_eq!(i.get_tls_handshake_timeout(), Some(TLS_HANDSHAKE_TIMEOUT));
    assert_eq!(CONNECTION_TIMEOUT, 10000);
    i.connection_timeout = Some(0);
    i.write_timeout = Some(250);
    i.read_timeout = Some(0);
    i.tls_handshake_timeout = Some(1);
    assert_eq!(i.get_connection_timeout(), None);
    assert_eq!(i.get_write_timeout(), Some(250));
    assert_eq!(i.get_read_timeout(), None);
    assert_eq!(i.get_tls_handshake_timeout(), Some(1));
}

#[test]
fn server_timeouts_default_disable_and_keep() {
    let mut s = server("9.9.9.9", vec![]);
    assert_eq!(s.get_connection_timeout(), Some(10000));
    s.write_timeout = Some(0);
    s.read_timeout = Some(700);
    assert_eq!(s.get_write_timeout(), None);
    assert_eq!(s.get_read_timeout(), Some(700));
    assert_eq!(s.get_tls_handshake_timeout(), Some(10000));
}

#[test]
fn auth_name_is_returned() {
    let mut i = iface(Transport::Tls);
    i.auth_name = Some("dns.example".to_string());
    assert_eq!(i.get_auth_name(), "dns.example");
}

#[test]
fn prepare_fills_only_unset_interface_timeouts() {
    let mut explicit = iface(Transport::Tcp);
    explicit.read_timeout = Some(42);
    let mut s = server("1.1.1.1", vec![iface(Transport::Udp), explicit]);
    s.connection_timeout = Some(0);
    s.read_timeout = Some(3000);
    let config = Config {
        listen: vec![ListenConfig { host: "127.0.0.1".to_string(), interfaces: vec![iface(Transport::Udp)] }],
        upstream_servers: vec![s],
    };
    let prepared = prepare_config(config);
    assert_eq!(prepared.listen.len(), 1);
    assert_eq!(prepared.listen[0].interfaces[0].read_timeout, None);
    let s = &prepared.upstream_servers[0];
    assert_eq!(s.connection_timeout, Some(0));
    assert_eq!(s.read_timeout, Some(3000));
    let a = &s.interfaces[0];
    assert_eq!(a.connection_timeout, None);
    assert_eq!(a.write_timeout, Some(WRITE_TIMEOUT));
    assert_eq!(a.read_timeout, Some(3000));
    assert_eq!(a.tls_handshake_timeout, Some(TLS_HANDSHAKE_TIMEOUT));
    let b = &s.interfaces[1];
    assert_eq!(b.read_timeout, Some(42));
    assert_eq!(b.write_timeout, Some(WRITE_TIMEOUT));
}

#[test]
fn prepare_twice_is_prepare_once() {
    let mut s = server("1.1.1.1", vec![iface(Transport::Udp), iface(Transport::Tls)]);
    s.write_timeout = Some(0);
    s.read_timeout = Some(5);
    let once = prepare_config(Config { listen: vec![], upstream_servers: vec![s] });
    let snapshot: Vec<_> = once.upstream_servers[0]
        .interfaces
        .iter()
        .map(|i| (i.connection_timeout, i.write_timeout, i.read_timeout, i.tls_handshake_timeout))
        .collect();
    let twice = prepare_config(once);
    let again: Vec<_> = twice.upstream_servers[0]
        .interfaces
        .iter()
        .map(|i| (i.connection_timeout, i.write_timeout, i.read_timeout, i.tls_handshake_timeout))
        .collect();
    assert_eq!(snapshot, again);
    assert_eq!(again[0], (Some(10000), None, Some(5), Some(10000)));
}

#[test]
fn config_path_is_taken_from_first_flag() {
    let args = vec![
        "stubdns".to_string(),
        "--verbose".to_string(),
        "--config=/etc/stubdns.json".to_string(),
        "--config=/tmp/other.json".to_string(),
    ];
    assert_eq!(config_path_from_args(&args), Ok("/etc/stubdns.json".to_string()));
    let empty_path = vec!["--config=".to_string()];
    assert_eq!(config_path_from_args(&empty_path), Ok(String::new()));
}

#[test]
fn missing_config_path_is_an_error() {
    let args = vec!["stubdns".to_string(), "--config".to_string(), "-config=x".to_string()];
    assert_eq!(config_path_from_args(&args), Err(ConfigError::MissingConfigPath));
    assert_eq!(
        ConfigError::MissingConfigPath.message(),
        "Usage: stubdns --config=<config_path>"
    );
}
