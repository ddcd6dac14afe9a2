use crate::config::{InterfaceConfig, UpstreamServerConfig};
use crate::connection::{
    format_server_addr, Connection, TcpSocketConfig, TlsConnectionConfig, UdpConfig,
};
use rustls::pki_types::{InvalidDnsNameError, ServerName};
use vstd::prelude::*;

verus! {

/// rustls's `ServerName`, the name a TLS handshake authenticates the server
/// by; carried through opaquely.
#[verifier::external_type_specification]
#[verifier::external_body]
pub struct ExServerName<'a>(ServerName<'a>);

/// rustls's error for a text that is neither a DNS name nor an IP address.
#[verifier::external_type_specification]
#[verifier::external_body]
pub struct ExInvalidDnsNameError(InvalidDnsNameError);

/// Whether rustls accepts a text as a server name: a syntactically valid DNS
/// name or an IP address.
pub uninterp spec fn server_name_accepts(name: Seq<char>) -> bool;

/// The server name rustls makes of a text it accepts (a DNS name, or an IP
/// address).
pub uninterp spec fn server_name_of(name: Seq<char>) -> ServerName<'static>;

/// Calls `rustls::pki_types::ServerName::try_from(String)`. Trusted to
/// succeed exactly on the names that `server_name_accepts` holds of, giving
/// `server_name_of` the text (the result depends on the text alone), and to
/// reject the empty name (rustls rejects an empty input before anything
/// else).
#[verifier::external_body]
fn server_name_try_from(name: String) -> (r: Result<ServerName<'static>, InvalidDnsNameError>)
    ensures
        r is Ok <==> server_name_accepts(name@),
        r matches Ok(n) ==> n == server_name_of(name@),
        name@.len() == 0 ==> r is Err,
{
    ServerName::try_from(name)
}

/// Why a connection to an upstream server could not be set up.
#[derive(Clone, Copy, Debug, PartialEq, Eq, Structural)]
pub enum ConnectError {
    /// The TLS authentication name is neither a DNS name nor an IP address.
    InvalidServerName,
}

impl ConnectError {
    /// The message shown to the user.
    pub fn message(&self) -> (m: String)
        ensures
            m@ == invalid_server_name_text(),
    {
        let text = "Invalid server name: invalid dns name";
        proof {
            reveal_strlit("Invalid server name: invalid dns name");
        }
        String::from_str(text)
    }
}

pub open spec fn invalid_server_name_text() -> Seq<char> {
    seq![
        'I', 'n', 'v', 'a', 'l', 'i', 'd', ' ', 's', 'e', 'r', 'v', 'e', 'r', ' ', 'n', 'a', 'm',
        'e', ':', ' ', 'i', 'n', 'v', 'a', 'l', 'i', 'd', ' ', 'd', 'n', 's', ' ', 'n', 'a', 'm',
        'e',
    ]
}

/// Turns the outcome of a server-name conversion into the library's own
/// error.
pub fn server_name_outcome(r: Result<ServerName<'static>, InvalidDnsNameError>) -> (o: Result<
    ServerName<'static>,
    ConnectError,
>)
    ensures
        o is Ok <==> r is Ok,
        o matches Ok(n) ==> r matches Ok(m) && n == m,
        o is Err ==> o->Err_0 == ConnectError::InvalidServerName,
{
    match r {
        Ok(name) => Ok(name),
        Err(_) => Err(ConnectError::InvalidServerName),
    }
}

/// Builds the endpoints of upstream connections from the configuration.
pub struct ConnectionManager;

impl ConnectionManager {
    /// The endpoint of a UDP connection to `interface_config` of `server`.
    pub fn udp_config(
        &self,
        server: &UpstreamServerConfig,
        interface_config: &InterfaceConfig,
    ) -> (c: UdpConfig)
        ensures
            c.describes(*server, *interface_config),
    {
        let port: u16 = interface_config.get_port();
        let read_timeout = interface_config.get_read_timeout();
        let server_addr = format_server_addr(server.host.as_str(), port);
        UdpConfig { host: server.host.clone(), port, server_addr, read_timeout }
    }

    /// The endpoint of a TCP connection to `interface_config` of `server`.
    pub fn tcp_config(
        &self,
        server: &UpstreamServerConfig,
        interface_config: &InterfaceConfig,
    ) -> (c: TcpSocketConfig)
        ensures
            c.describes(*server, *interface_config),
    {
        let port: u16 = interface_config.get_port();
        let server_addr = format_server_addr(server.host.as_str(), port);
        let connection_timeout = interface_config.get_connection_timeout();
        let write_timeout = interface_config.get_write_timeout();
        let read_timeout = interface_config.get_read_timeout();
        TcpSocketConfig {
            host: server.host.clone(),
            port,
            server_addr,
            connection_timeout,
            write_timeout,
            read_timeout,
        }
    }

    /// The endpoint of a TLS connection to `interface_config` of `server`,
    /// which must name the server to authenticate.
    pub fn tls_config(
        &self,
        server: &UpstreamServerConfig,
        interface_config: &InterfaceConfig,
    ) -> (c: TlsConnectionConfig)
        requires
            interface_config.auth_name is Some,
        ensures
            c.describes(*server, *interface_config),
    {
        let auth_name = interface_config.get_auth_name();
        let tcp_config = self.tcp_config(server, interface_config);
        let tls_handshake_timeout = interface_config.get_tls_handshake_timeout();
        TlsConnectionConfig { tcp_config, auth_name, tls_handshake_timeout }
    }

    /// The name a TLS server's certificate is checked against.
    pub fn server_name(&self, auth_name: &String) -> (r: Result<ServerName<'static>, ConnectError>)
        ensures
            r is Ok <==> server_name_accepts(auth_name@),
            r matches Ok(n) ==> n == server_name_of(auth_name@),
            r is Err ==> r->Err_0 == ConnectError::InvalidServerName,
            auth_name@.len() == 0 ==> r is Err,
    {
        let outcome = server_name_try_from(auth_name.clone());
        server_name_outcome(outcome)
    }
}

impl<U, T, L> Connection<U, T, L> {
    /// This connection reaches the endpoint that `interface` of `server`
    /// designates, over the interface's transport.
    pub open spec fn designated_by(
        &self,
        server: UpstreamServerConfig,
        interface: InterfaceConfig,
    ) -> bool {
        &&& interface.type_ == self.spec_transport()
        &&& match self {
            Connection::Udp(c) => c.config.describes(server, interface),
            Connection::Tcp(c) => c.config.describes(server, interface),
            Connection::Tls(c) => c.config.describes(server, interface),
        }
    }
}

/// A connection re-created from the settings it yields reaches the same
/// endpoint: same host, port, address and timeouts (and, for TLS, the same
/// authentication name).
pub proof fn lemma_reconnect_same_endpoint<U, T, L>(
    conn: Connection<U, T, L>,
    server: UpstreamServerConfig,
    interface: InterfaceConfig,
    recovered_server: UpstreamServerConfig,
    recovered_interface: InterfaceConfig,
)
    requires
        conn.designated_by(server, interface),
        conn.recovers(recovered_server, recovered_interface),
    ensures
        conn.designated_by(recovered_server, recovered_interface),
{
}

} // verus!
