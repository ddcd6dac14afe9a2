use crate::config::{effective_timeout, InterfaceConfig, Transport, UpstreamServerConfig};
use vstd::prelude::*;

verus! {

/// The character of a decimal digit.
pub open spec fn digit_char(d: nat) -> char {
    (48 + d) as char
}

/// The decimal representation of a number, without leading zeros.
pub open spec fn decimal_digits(n: nat) -> Seq<char>
    decreases n,
{
    if n < 10 {
        seq![digit_char(n)]
    } else {
        decimal_digits(n / 10).push(digit_char(n % 10))
    }
}

/// The text `host:port` by which an upstream endpoint is addressed.
pub open spec fn server_addr_text(host: Seq<char>, port: u16) -> Seq<char> {
    host + seq![':'] + decimal_digits(port as nat)
}

/// The number a sequence of decimal digit characters stands for.
pub open spec fn digits_value(digits: Seq<char>) -> nat
    decreases digits.len(),
{
    if digits.len() == 0 {
        0
    } else {
        digits_value(digits.drop_last()) * 10 + ((digits.last() as int - 48) as nat)
    }
}

/// The decimal text of a number consists of decimal digits, without a
/// leading zero, and stands for that number.
pub proof fn lemma_decimal_digits(n: nat)
    ensures
        decimal_digits(n).len() >= 1,
        forall|k: int|
            0 <= k < decimal_digits(n).len() ==> 48 <= #[trigger] (decimal_digits(n)[k] as int)
                <= 57,
        n >= 10 ==> decimal_digits(n)[0] != '0',
        digits_value(decimal_digits(n)) == n,
    decreases n,
{
    if n >= 10 {
        lemma_decimal_digits(n / 10);
        let prefix = decimal_digits(n / 10);
        let d = decimal_digits(n);
        assert(d == prefix.push(digit_char(n % 10)));
        assert(d.drop_last() =~= prefix);
        assert forall|k: int| 0 <= k < d.len() implies 48 <= #[trigger] (d[k] as int) <= 57 by {
            if k < prefix.len() {
                assert(d[k] == prefix[k]);
            }
        }
        if n / 10 < 10 {
            assert(prefix[0] == digit_char(n / 10));
        }
        assert(d[0] == prefix[0]);
        assert(d.last() == digit_char(n % 10));
        assert(digit_char(n % 10) as int == 48 + n % 10);
        assert(digits_value(d) == digits_value(prefix) * 10 + n % 10);
        assert((n / 10) * 10 + n % 10 == n) by (nonlinear_arith);
        assert(digits_value(d) == n);
    } else {
        let d = decimal_digits(n);
        assert(d.drop_last() =~= Seq::<char>::empty());
        assert(digit_char(n) as int == 48 + n);
        assert(digits_value(d.drop_last()) == 0);
        assert(digits_value(d) == n);
    }
}

fn digit_str(d: u16) -> (s: &'static str)
    requires
        d < 10,
    ensures
        s@ == seq![digit_char(d as nat)],
{
    proof {
        reveal_strlit("0");
        reveal_strlit("1");
        reveal_strlit("2");
        reveal_strlit("3");
        reveal_strlit("4");
        reveal_strlit("5");
        reveal_strlit("6");
        reveal_strlit("7");
        reveal_strlit("8");
        reveal_strlit("9");
    }
    match d {
        0 => "0",
        1 => "1",
        2 => "2",
        3 => "3",
        4 => "4",
        5 => "5",
        6 => "6",
        7 => "7",
        8 => "8",
        _ => "9",
    }
}

fn append_decimal(s: &mut String, n: u16)
    ensures
        final(s)@ == old(s)@ + decimal_digits(n as nat),
    decreases n,
{
    if n >= 10 {
        append_decimal(s, n / 10);
    }
    let d = digit_str(n % 10);
    s.append(d);
    proof {
        assert(old(s)@ + decimal_digits(n as nat) =~= if n >= 10 {
            old(s)@ + decimal_digits((n / 10) as nat) + d@
        } else {
            old(s)@ + d@
        });
    }
}

/// Formats the address `host:port` of an upstream endpoint.
pub fn format_server_addr(host: &str, port: u16) -> (addr: String)
    ensures
        addr@ == server_addr_text(host@, port),
{
    let mut addr = String::from_str(host);
    proof {
        reveal_strlit(":");
    }
    addr.append(":");
    append_decimal(&mut addr, port);
    proof {
        assert(addr@ =~= server_addr_text(host@, port));
    }
    addr
}

/// What a UDP upstream endpoint is: its address and its read timeout.
#[derive(Clone, Debug)]
pub struct UdpConfig {
    pub host: String,
    pub port: u16,
    pub server_addr: String,
    pub read_timeout: Option<u64>,
}

/// What a TCP upstream endpoint is: its address, the timeout for
/// establishing the connection, and its I/O timeouts.
#[derive(Clone, Debug)]
pub struct TcpSocketConfig {
    pub host: String,
    pub port: u16,
    pub server_addr: String,
    pub connection_timeout: Option<u64>,
    pub write_timeout: Option<u64>,
    pub read_timeout: Option<u64>,
}

/// What a TLS upstream endpoint is: its TCP endpoint, the name its
/// certificate is checked against, and the handshake timeout.
#[derive(Clone, Debug)]
pub struct TlsConnectionConfig {
    pub tcp_config: TcpSocketConfig,
    pub auth_name: String,
    pub tls_handshake_timeout: Option<u64>,
}

impl UdpConfig {
    /// This endpoint is the one that `interface` of `server` designates.
    pub open spec fn describes(&self, server: UpstreamServerConfig, interface: InterfaceConfig) -> bool {
        &&& self.host@ == server.host@
        &&& self.port == interface.spec_port()
        &&& self.server_addr@ == server_addr_text(server.host@, interface.spec_port())
        &&& self.read_timeout == interface.spec_read_timeout()
    }
}

impl TcpSocketConfig {
    /// This endpoint is the one that `interface` of `server` designates.
    pub open spec fn describes(&self, server: UpstreamServerConfig, interface: InterfaceConfig) -> bool {
        &&& self.host@ == server.host@
        &&& self.port == interface.spec_port()
        &&& self.server_addr@ == server_addr_text(server.host@, interface.spec_port())
        &&& self.connection_timeout == interface.spec_connection_timeout()
        &&& self.write_timeout == interface.spec_write_timeout()
        &&& self.read_timeout == interface.spec_read_timeout()
    }
}

impl TlsConnectionConfig {
    /// This endpoint is the one that `interface` of `server` designates.
    pub open spec fn describes(&self, server: UpstreamServerConfig, interface: InterfaceConfig) -> bool {
        &&& self.tcp_config.describes(server, interface)
        &&& interface.auth_name is Some
        &&& self.auth_name@ == interface.auth_name->0@
        &&& self.tls_handshake_timeout == interface.spec_tls_handshake_timeout()
    }
}

/// A UDP endpoint built for an interface of a server has the server's host,
/// the interface's port (its own, else 53), the address `host:port` in
/// decimal, and the interface's read timeout read by the setting rule.
pub proof fn lemma_udp_endpoint(c: UdpConfig, server: UpstreamServerConfig, interface: InterfaceConfig)
    requires
        c.describes(server, interface),
        interface.type_ == Transport::Udp,
    ensures
        c.host@ == server.host@,
        c.port == match interface.port {
            Some(p) => p,
            None => 53u16,
        },
        c.server_addr@ == server.host@ + seq![':'] + decimal_digits(c.port as nat),
        c.read_timeout == effective_timeout(interface.read_timeout, 10000u64),
{
}

/// A TCP endpoint built for an interface of a server has the server's host,
/// the interface's port (its own, else 53), the address `host:port` in
/// decimal, and the interface's timeouts read by the setting rule.
pub proof fn lemma_tcp_endpoint(
    c: TcpSocketConfig,
    server: UpstreamServerConfig,
    interface: InterfaceConfig,
)
    requires
        c.describes(server, interface),
        interface.type_ == Transport::Tcp,
    ensures
        c.host@ == server.host@,
        c.port == match interface.port {
            Some(p) => p,
            None => 53u16,
        },
        c.server_addr@ == server.host@ + seq![':'] + decimal_digits(c.port as nat),
        c.connection_timeout == effective_timeout(interface.connection_timeout, 10000u64),
        c.write_timeout == effective_timeout(interface.write_timeout, 10000u64),
        c.read_timeout == effective_timeout(interface.read_timeout, 10000u64),
{
}

/// A TLS endpoint built for an interface of a server reaches the server's
/// host at the interface's port (its own, else 853), at the address
/// `host:port` in decimal, with the interface's timeouts read by the setting
/// rule, and authenticates the server by the interface's name.
pub proof fn lemma_tls_endpoint(
    c: TlsConnectionConfig,
    server: UpstreamServerConfig,
    interface: InterfaceConfig,
)
    requires
        c.describes(server, interface),
        interface.type_ == Transport::Tls,
    ensures
        c.tcp_config.host@ == server.host@,
        c.tcp_config.port == match interface.port {
            Some(p) => p,
            None => 853u16,
        },
        c.tcp_config.server_addr@ == server.host@ + seq![':'] + decimal_digits(
            c.tcp_config.port as nat,
        ),
        c.tcp_config.connection_timeout == effective_timeout(
            interface.connection_timeout,
            10000u64,
        ),
        c.tcp_config.write_timeout == effective_timeout(interface.write_timeout, 10000u64),
        c.tcp_config.read_timeout == effective_timeout(interface.read_timeout, 10000u64),
        c.tls_handshake_timeout == effective_timeout(interface.tls_handshake_timeout, 10000u64),
        interface.auth_name is Some,
        c.auth_name@ == interface.auth_name->0@,
{
}

/// A connection to a UDP upstream: its endpoint and the socket that reaches it.
#[derive(Clone, Debug)]
pub struct UdpConnection<S> {
    pub config: UdpConfig,
    pub socket: S,
}

/// A connection to a TCP upstream: its endpoint and the stream that reaches it.
#[derive(Clone, Debug)]
pub struct TcpConnection<S> {
    pub config: TcpSocketConfig,
    pub stream: S,
}

/// A connection to a TLS upstream: its endpoint and the stream that reaches it.
#[derive(Clone, Debug)]
pub struct TlsConnection<S> {
    pub config: TlsConnectionConfig,
    pub stream: S,
}

/// An established connection to an upstream server, by transport.
#[derive(Clone, Debug)]
pub enum Connection<U, T, L> {
    Udp(UdpConnection<U>),
    Tcp(TcpConnection<T>),
    Tls(TlsConnection<L>),
}

/// How an effective timeout is written back as a setting that reads as it:
/// a disabled timeout becomes an explicit zero.
pub open spec fn timeout_setting(effective: Option<u64>) -> Option<u64> {
    match effective {
        Some(t) => Some(t),
        None => Some(0),
    }
}

fn to_timeout_setting(effective: Option<u64>) -> (r: Option<u64>)
    ensures
        r == timeout_setting(effective),
{
    match effective {
        Some(t) => Some(t),
        None => Some(0),
    }
}

impl<U, T, L> Connection<U, T, L> {
    pub open spec fn spec_transport(&self) -> Transport {
        match self {
            Connection::Udp(_) => Transport::Udp,
            Connection::Tcp(_) => Transport::Tcp,
            Connection::Tls(_) => Transport::Tls,
        }
    }

    pub open spec fn spec_server_addr(&self) -> Seq<char> {
        match self {
            Connection::Udp(c) => c.config.server_addr@,
            Connection::Tcp(c) => c.config.server_addr@,
            Connection::Tls(c) => c.config.tcp_config.server_addr@,
        }
    }

    /// The transport this connection uses.
    pub fn get_transport(&self) -> (t: Transport)
        ensures
            t == self.spec_transport(),
    {
        match self {
            Connection::Udp(_) => Transport::Udp,
            Connection::Tcp(_) => Transport::Tcp,
            Connection::Tls(_) => Transport::Tls,
        }
    }

    /// The `host:port` address of the upstream server.
    pub fn get_server_addr(&self) -> (addr: String)
        ensures
            addr@ == self.spec_server_addr(),
    {
        match self {
            Connection::Udp(c) => c.config.server_addr.clone(),
            Connection::Tcp(c) => c.config.server_addr.clone(),
            Connection::Tls(c) => c.config.tcp_config.server_addr.clone(),
        }
    }

    /// `server` and `interface` are the settings this connection is
    /// re-established from: the upstream host, and an interface of the same
    /// transport and port whose settings read as the connection's own.
    pub open spec fn recovers(
        &self,
        server: UpstreamServerConfig,
        interface: InterfaceConfig,
    ) -> bool {
        &&& server.interfaces@.len() == 0
        &&& server.connection_timeout is None
        &&& server.write_timeout is None
        &&& server.read_timeout is None
        &&& server.tls_handshake_timeout is None
        &&& interface.type_ == self.spec_transport()
        &&& match self {
            Connection::Udp(c) => {
                &&& server.host@ == c.config.host@
                &&& interface.port == Some(c.config.port)
                &&& interface.auth_name is None
                &&& interface.connection_timeout is None
                &&& interface.write_timeout is None
                &&& interface.read_timeout == timeout_setting(c.config.read_timeout)
                &&& interface.tls_handshake_timeout is None
            },
            Connection::Tcp(c) => {
                &&& server.host@ == c.config.host@
                &&& interface.port == Some(c.config.port)
                &&& interface.auth_name is None
                &&& interface.connection_timeout == timeout_setting(c.config.connection_timeout)
                &&& interface.write_timeout == timeout_setting(c.config.write_timeout)
                &&& interface.read_timeout == timeout_setting(c.config.read_timeout)
                &&& interface.tls_handshake_timeout is None
            },
            Connection::Tls(c) => {
                &&& server.host@ == c.config.tcp_config.host@
                &&& interface.port == Some(c.config.tcp_config.port)
                &&& interface.auth_name is Some
                &&& interface.auth_name->0@ == c.config.auth_name@
                &&& interface.connection_timeout == timeout_setting(
                    c.config.tcp_config.connection_timeout,
                )
                &&& interface.write_timeout == timeout_setting(c.config.tcp_config.write_timeout)
                &&& interface.read_timeout == timeout_setting(c.config.tcp_config.read_timeout)
                &&& interface.tls_handshake_timeout == timeout_setting(
                    c.config.tls_handshake_timeout,
                )
            },
        }
    }

    /// The upstream server and interface settings from which this connection
    /// is created again.
    pub fn to_server_and_interface_config(&self) -> (r: (UpstreamServerConfig, InterfaceConfig))
        ensures
            self.recovers(r.0, r.1),
    {
        let (
            host,
            port,
            auth_name,
            connection_timeout,
            write_timeout,
            read_timeout,
            tls_handshake_timeout,
        ) = match self {
            Connection::Udp(c) => (
                c.config.host.clone(),
                c.config.port,
                None,
                None,
                None,
                to_timeout_setting(c.config.read_timeout),
                None,
            ),
            Connection::Tcp(c) => (
                c.config.host.clone(),
                c.config.port,
                None,
                to_timeout_setting(c.config.connection_timeout),
                to_timeout_setting(c.config.write_timeout),
                to_timeout_setting(c.config.read_timeout),
                None,
            ),
            Connection::Tls(c) => (
                c.config.tcp_config.host.clone(),
                c.config.tcp_config.port,
                Some(c.config.auth_name.clone()),
                to_timeout_setting(c.config.tcp_config.connection_timeout),
                to_timeout_setting(c.config.tcp_config.write_timeout),
                to_timeout_setting(c.config.tcp_config.read_timeout),
                to_timeout_setting(c.config.tls_handshake_timeout),
            ),
        };
        let server = UpstreamServerConfig {
            host,
            interfaces: Vec::new(),
            connection_timeout: None,
            write_timeout: None,
            read_timeout: None,
            tls_handshake_timeout: None,
        };
        let interface = InterfaceConfig {
            type_: self.get_transport(),
            port: Some(port),
            auth_name,
            connection_timeout,
            write_timeout,
            read_timeout,
            tls_handshake_timeout,
        };
        (server, interface)
    }
}

} // verus!
