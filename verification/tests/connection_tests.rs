use stubdns::config::{InterfaceConfig, Transport, UpstreamServerConfig};
use stubdns::connection::{
    format_server_addr, Connection, TcpConnection, TlsConnection, UdpConnection,
};
use stubdns::connection_manager::{ConnectError, ConnectionManager};

type TestConnection = Connection<u8, u16, u32>;

fn iface(type_: Transport, port: Option<u16>) -> InterfaceConfig {
    InterfaceConfig {
        type_,
        port,
        auth_name: None,
        connection_timeout: None,
        write_timeout: None,
        read_timeout: None,
        tls_handshake_timeout: None,
    }
}

fn server(host: &str) -> UpstreamServerConfig {
    UpstreamServerConfig {
        host: host.to_string(),
        interfaces: vec![],
        connection_timeout: None,
        write_timeout: None,
        read_timeout: None,
        tls_handshake_timeout: None,
    }
}

#[test]
fn server_addresses_are_host_colon_decimal_port() {
    assert_eq!(format_server_addr("8.8.8.8", 53), "8.8.8.8:53");
    assert_eq!(format_server_addr("dns.example", 0), "dns.example:0");
    assert_eq!(format_server_addr("h", 65535), "h:65535");
    assert_eq!(format_server_addr("", 10), ":10");
    assert_eq!(format_server_addr("[::1]", 853), "[::1]:853");
}

#[test]
fn udp_endpoint_uses_interface_port_and_read_timeout() {
    let mut i = iface(Transport::Udp, None);
    i.read_timeout = Some(0);
    let c = ConnectionManager.udp_config(&server("9.9.9.9"), &i);
    assert_eq!(c.host, "9.9.9.9");
    assert_eq!(c.port, 53);
    assert_eq!(c.server_addr, "9.9.9.9:53");
    assert_eq!(c.read_timeout, None);
}

#[test]
fn tcp_endpoint_uses_interface_timeouts() {
    let mut i = iface(Transport::Tcp, Some(5300));
    i.write_timeout = Some(12);
    let c = ConnectionManager.tcp_config(&server("1.1.1.1"), &i);
    assert_eq!(c.server_addr, "1.1.1.1:5300");
    assert_eq!(c.write_timeout, Some(12));
    assert_eq!(c.read_timeout, Some(10000));
    assert_eq!(c.connection_timeout, Some(10000));
}

#[test]
fn tls_endpoint_carries_auth_name_and_handshake_timeout() {
    let mut i = iface(Transport::Tls, None);
    i.auth_name = Some("one.one.one.one".to_string());
    i.tls_handshake_timeout = Some(0);
    let c = ConnectionManager.tls_config(&server("1.1.1.1"), &i);
    assert_eq!(c.tcp_config.server_addr, "1.1.1.1:853");
    assert_eq!(c.auth_name, "one.one.one.one");
    assert_eq!(c.tls_handshake_timeout, None);
}

#[test]
fn server_names_are_checked_by_rustls() {
    assert!(ConnectionManager.server_name(&"dns.google".to_string()).is_ok());
    assert!(ConnectionManager.server_name(&"1.1.1.1".to_string()).is_ok());
    assert_eq!(
        ConnectionManager.server_name(&String::new()).err(),
        Some(ConnectError::InvalidServerName)
    );
    assert_eq!(
        ConnectionManager.server_name(&"not a name!".to_string()).err(),
        Some(ConnectError::InvalidServerName)
    );
    assert_eq!(ConnectError::InvalidServerName.message(), "Invalid server name: invalid dns name");
}

#[test]
fn connection_reports_transport_and_address() {
    let s = server("8.8.4.4");
    let udp: TestConnection = Connection::Udp(UdpConnection {
        config: ConnectionManager.udp_config(&s, &iface(Transport::Udp, None)),
        socket: 1,
    });
    assert_eq!(udp.get_transport(), Transport::Udp);
    assert_eq!(udp.get_server_addr(), "8.8.4.4:53");
    let tcp: TestConnection = Connection::Tcp(TcpConnection {
        config: ConnectionManager.tcp_config(&s, &iface(Transport::Tcp, Some(54))),
        stream: 2,
    });
    assert_eq!(tcp.get_transport(), Transport::Tcp);
    assert_eq!(tcp.get_server_addr(), "8.8.4.4:54");
}

#[test]
fn reconnect_settings_designate_the_same_endpoint() {
    let s = server("9.9.9.9");
    let mut i = iface(Transport::Tls, None);
    i.auth_name = Some("dns.quad9.net".to_string());
    i.read_timeout = Some(0);
    i.write_timeout = Some(77);
    i.connection_timeout = Some(500);
    let original = ConnectionManager.tls_config(&s, &i);
    let conn: TestConnection = Connection::Tls(TlsConnection { config: original.clone(), stream: 3 });
    let (s2, i2) = conn.to_server_and_interface_config();
    assert_eq!(i2.type_, Transport::Tls);
    assert_eq!(i2.read_timeout, Some(0));
    let again = ConnectionManager.tls_config(&s2, &i2);
    assert_eq!(again.tcp_config.server_addr, original.tcp_config.server_addr);
    assert_eq!(again.tcp_config.read_timeout, None);
    assert_eq!(again.tcp_config.write_timeout, Some(77));
    assert_eq!(again.tcp_config.connection_timeout, Some(500));
    assert_eq!(i2.connection_timeout, Some(500));
    assert_eq!(again.tls_handshake_timeout, original.tls_handshake_timeout);
    assert_eq!(again.auth_name, original.auth_name);

    let u = ConnectionManager.udp_config(&s, &iface(Transport::Udp, Some(5353)));
    let conn: TestConnection = Connection::Udp(UdpConnection { config: u.clone(), socket: 0 });
    let (s3, i3) = conn.to_server_and_interface_config();
    let again = ConnectionManager.udp_config(&s3, &i3);
    assert_eq!(again.server_addr, "9.9.9.9:5353");
    assert_eq!(again.read_timeout, u.read_timeout);
}
