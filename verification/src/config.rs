use vstd::prelude::*;
use vstd::string::StrSliceExecFns;

verus! {

/// Connection timeout applied when none is configured, in milliseconds.
pub const CONNECTION_TIMEOUT: u64 = 10000;

/// Write timeout applied when none is configured, in milliseconds.
pub const WRITE_TIMEOUT: u64 = 10000;

/// Read timeout applied when none is configured, in milliseconds.
pub const READ_TIMEOUT: u64 = 10000;

/// TLS handshake timeout applied when none is configured, in milliseconds.
pub const TLS_HANDSHAKE_TIMEOUT: u64 = 10000;

/// How long a connection's health check may wait for readiness, in
/// milliseconds.
pub const CONNECTION_CHECK_TIMEOUT_MS: u64 = 1000;

/// Size of the buffer a query is received into, in bytes.
pub const TCP_BUFFER_SIZE: usize = 4096;

/// Transport protocol of a listening or upstream interface.
#[derive(Clone, Copy, Debug, PartialEq, Eq, Structural)]
pub enum Transport {
    Udp,
    Tcp,
    Tls,
}

/// One interface (transport, port, timeouts) of a listener or upstream server.
#[derive(Clone, Debug)]
pub struct InterfaceConfig {
    pub type_: Transport,
    pub port: Option<u16>,
    pub auth_name: Option<String>,
    pub connection_timeout: Option<u64>,
    pub write_timeout: Option<u64>,
    pub read_timeout: Option<u64>,
    pub tls_handshake_timeout: Option<u64>,
}

/// An upstream DNS server with its interfaces and server-wide timeouts.
#[derive(Clone, Debug)]
pub struct UpstreamServerConfig {
    pub host: String,
    pub interfaces: Vec<InterfaceConfig>,
    pub connection_timeout: Option<u64>,
    pub write_timeout: Option<u64>,
    pub read_timeout: Option<u64>,
    pub tls_handshake_timeout: Option<u64>,
}

/// A local address to listen on, with its interfaces.
#[derive(Clone, Debug)]
pub struct ListenConfig {
    pub host: String,
    pub interfaces: Vec<InterfaceConfig>,
}

/// The whole configuration file.
#[derive(Clone, Debug)]
pub struct Config {
    pub listen: Vec<ListenConfig>,
    pub upstream_servers: Vec<UpstreamServerConfig>,
}

/// The well-known port of a transport: 53 for plain DNS, 853 for DNS over TLS.
pub open spec fn default_port(t: Transport) -> u16 {
    match t {
        Transport::Udp => 53,
        Transport::Tcp => 53,
        Transport::Tls => 853,
    }
}

/// How a configured timeout is read: an explicit zero disables it, a missing
/// value falls back to the default, any other value is kept.
pub open spec fn effective_timeout(setting: Option<u64>, default: u64) -> Option<u64> {
    match setting {
        Some(t) => if t == 0 { None } else { Some(t) },
        None => Some(default),
    }
}

fn resolve_timeout(setting: Option<u64>, default: u64) -> (r: Option<u64>)
    ensures
        r == effective_timeout(setting, default),
{
    match setting {
        Some(0) => None,
        Some(timeout) => Some(timeout),
        None => Some(default),
    }
}

impl InterfaceConfig {
    pub open spec fn spec_port(&self) -> u16 {
        match self.port {
            Some(p) => p,
            None => default_port(self.type_),
        }
    }

    pub open spec fn spec_connection_timeout(&self) -> Option<u64> {
        effective_timeout(self.connection_timeout, CONNECTION_TIMEOUT)
    }

    pub open spec fn spec_write_timeout(&self) -> Option<u64> {
        effective_timeout(self.write_timeout, WRITE_TIMEOUT)
    }

    pub open spec fn spec_read_timeout(&self) -> Option<u64> {
        effective_timeout(self.read_timeout, READ_TIMEOUT)
    }

    pub open spec fn spec_tls_handshake_timeout(&self) -> Option<u64> {
        effective_timeout(self.tls_handshake_timeout, TLS_HANDSHAKE_TIMEOUT)
    }

    /// The configured port, or the transport's well-known port.
    pub fn get_port(&self) -> (port: u16)
        ensures
            port == self.spec_port(),
            port == match self.port {
                Some(p) => p,
                None => default_port(self.type_),
            },
    {
        match self.type_ {
            Transport::Udp => match self.port {
                Some(p) => p,
                None => 53,
            },
            Transport::Tcp => match self.port {
                Some(p) => p,
                None => 53,
            },
            Transport::Tls => match self.port {
                Some(p) => p,
                None => 853,
            },
        }
    }

    /// The name to authenticate a TLS server by; a TLS interface must have one.
    pub fn get_auth_name(&self) -> (name: String)
        requires
            self.auth_name is Some,
        ensures
            name@ == self.auth_name->0@,
    {
        match &self.auth_name {
            Some(name) => name.clone(),
            None => String::new(),
        }
    }

    pub fn get_connection_timeout(&self) -> (r: Option<u64>)
        ensures
            r == self.spec_connection_timeout(),
            r == effective_timeout(self.connection_timeout, CONNECTION_TIMEOUT),
    {
        resolve_timeout(self.connection_timeout, CONNECTION_TIMEOUT)
    }

    pub fn get_write_timeout(&self) -> (r: Option<u64>)
        ensures
            r == self.spec_write_timeout(),
            r == effective_timeout(self.write_timeout, WRITE_TIMEOUT),
    {
        resolve_timeout(self.write_timeout, WRITE_TIMEOUT)
    }

    pub fn get_read_timeout(&self) -> (r: Option<u64>)
        ensures
            r == self.spec_read_timeout(),
            r == effective_timeout(self.read_timeout, READ_TIMEOUT),
    {
        resolve_timeout(self.read_timeout, READ_TIMEOUT)
    }

    pub fn get_tls_handshake_timeout(&self) -> (r: Option<u64>)
        ensures
            r == self.spec_tls_handshake_timeout(),
            r == effective_timeout(self.tls_handshake_timeout, TLS_HANDSHAKE_TIMEOUT),
    {
        resolve_timeout(self.tls_handshake_timeout, TLS_HANDSHAKE_TIMEOUT)
    }
}

impl UpstreamServerConfig {
    pub open spec fn spec_connection_timeout(&self) -> Option<u64> {
        effective_timeout(self.connection_timeout, CONNECTION_TIMEOUT)
    }

    pub open spec fn spec_write_timeout(&self) -> Option<u64> {
        effective_timeout(self.write_timeout, WRITE_TIMEOUT)
    }

    pub open spec fn spec_read_timeout(&self) -> Option<u64> {
        effective_timeout(self.read_timeout, READ_TIMEOUT)
    }

    pub open spec fn spec_tls_handshake_timeout(&self) -> Option<u64> {
        effective_timeout(self.tls_handshake_timeout, TLS_HANDSHAKE_TIMEOUT)
    }

    pub fn get_connection_timeout(&self) -> (r: Option<u64>)
        ensures
            r == self.spec_connection_timeout(),
            r == effective_timeout(self.connection_timeout, CONNECTION_TIMEOUT),
    {
        resolve_timeout(self.connection_timeout, CONNECTION_TIMEOUT)
    }

    pub fn get_write_timeout(&self) -> (r: Option<u64>)
        ensures
            r == self.spec_write_timeout(),
            r == effective_timeout(self.write_timeout, WRITE_TIMEOUT),
    {
        resolve_timeout(self.write_timeout, WRITE_TIMEOUT)
    }

    pub fn get_read_timeout(&self) -> (r: Option<u64>)
        ensures
            r == self.spec_read_timeout(),
            r == effective_timeout(self.read_timeout, READ_TIMEOUT),
    {
        resolve_timeout(self.read_timeout, READ_TIMEOUT)
    }

    pub fn get_tls_handshake_timeout(&self) -> (r: Option<u64>)
        ensures
            r == self.spec_tls_handshake_timeout(),
            r == effective_timeout(self.tls_handshake_timeout, TLS_HANDSHAKE_TIMEOUT),
    {
        resolve_timeout(self.tls_handshake_timeout, TLS_HANDSHAKE_TIMEOUT)
    }
}

/// An unset interface setting is filled with the server's effective setting;
/// a set one is kept.
pub open spec fn inherit(setting: Option<u64>, from_server: Option<u64>) -> Option<u64> {
    if setting is None {
        from_server
    } else {
        setting
    }
}

/// `new` is `old` with its unset timeouts inherited from `server`; all else equal.
pub open spec fn interface_inherits(
    new: InterfaceConfig,
    old: InterfaceConfig,
    server: UpstreamServerConfig,
) -> bool {
    &&& new.type_ == old.type_
    &&& new.port == old.port
    &&& new.auth_name == old.auth_name
    &&& new.connection_timeout == inherit(
        old.connection_timeout,
        server.spec_connection_timeout(),
    )
    &&& new.write_timeout == inherit(old.write_timeout, server.spec_write_timeout())
    &&& new.read_timeout == inherit(old.read_timeout, server.spec_read_timeout())
    &&& new.tls_handshake_timeout == inherit(
        old.tls_handshake_timeout,
        server.spec_tls_handshake_timeout(),
    )
}

/// `new` is `old` with every interface prepared against the server's settings.
pub open spec fn server_prepared(new: UpstreamServerConfig, old: UpstreamServerConfig) -> bool {
    &&& new.host == old.host
    &&& new.connection_timeout == old.connection_timeout
    &&& new.write_timeout == old.write_timeout
    &&& new.read_timeout == old.read_timeout
    &&& new.tls_handshake_timeout == old.tls_handshake_timeout
    &&& new.interfaces@.len() == old.interfaces@.len()
    &&& forall|j: int|
        0 <= j < old.interfaces@.len() ==> #[trigger] interface_inherits(
            new.interfaces@[j],
            old.interfaces@[j],
            old,
        )
}

/// `new` is what preparing `old` gives: listeners untouched, each upstream
/// server prepared.
pub open spec fn config_prepared(new: Config, old: Config) -> bool {
    &&& new.listen == old.listen
    &&& new.upstream_servers@.len() == old.upstream_servers@.len()
    &&& forall|i: int|
        0 <= i < old.upstream_servers@.len() ==> #[trigger] server_prepared(
            new.upstream_servers@[i],
            old.upstream_servers@[i],
        )
}

/// Fills each upstream interface's unset timeouts from its server's
/// effective timeouts.
pub fn prepare_config(config: Config) -> (prepared: Config)
    ensures
        config_prepared(prepared, config),
{
    let ghost original = config;
    let mut config = config;
    let n: usize = config.upstream_servers.len();
    let mut i: usize = 0;
    while i < n
        invariant
            0 <= i <= n,
            n == config.upstream_servers@.len(),
            config.listen == original.listen,
            config.upstream_servers@.len() == original.upstream_servers@.len(),
            forall|k: int|
                0 <= k < i ==> #[trigger] server_prepared(
                    config.upstream_servers@[k],
                    original.upstream_servers@[k],
                ),
            forall|k: int|
                i <= k < n ==> #[trigger] config.upstream_servers@[k]
                    == original.upstream_servers@[k],
        decreases n - i,
    {
        let server = &mut config.upstream_servers[i];
        let server_timeout = server.get_connection_timeout();
        let server_write_timeout = server.get_write_timeout();
        let server_read_timeout = server.get_read_timeout();
        let server_tls_handshake_timeout = server.get_tls_handshake_timeout();
        let ghost before = *server;
        let m: usize = server.interfaces.len();
        let mut j: usize = 0;
        while j < m
            invariant
                0 <= j <= m,
                m == server.interfaces@.len(),
                server.host == before.host,
                server.connection_timeout == before.connection_timeout,
                server.write_timeout == before.write_timeout,
                server.read_timeout == before.read_timeout,
                server.tls_handshake_timeout == before.tls_handshake_timeout,
                server.interfaces@.len() == before.interfaces@.len(),
                server_timeout == before.spec_connection_timeout(),
                server_write_timeout == before.spec_write_timeout(),
                server_read_timeout == before.spec_read_timeout(),
                server_tls_handshake_timeout == before.spec_tls_handshake_timeout(),
                forall|k: int|
                    0 <= k < j ==> #[trigger] interface_inherits(
                        server.interfaces@[k],
                        before.interfaces@[k],
                        before,
                    ),
                forall|k: int|
                    j <= k < m ==> #[trigger] server.interfaces@[k] == before.interfaces@[k],
            decreases m - j,
        {
            let interface = &mut server.interfaces[j];
            if interface.connection_timeout.is_none() {
                interface.connection_timeout = server_timeout;
            }
            if interface.write_timeout.is_none() {
                interface.write_timeout = server_write_timeout;
            }
            if interface.read_timeout.is_none() {
                interface.read_timeout = server_read_timeout;
            }
            if interface.tls_handshake_timeout.is_none() {
                interface.tls_handshake_timeout = server_tls_handshake_timeout;
            }
            j = j + 1;
        }
        i = i + 1;
    }
    config
}

/// How a timeout setting is read, whatever the default: an explicit zero
/// disables the timeout, another explicit value is kept, a missing one gives
/// the default; and every default is ten seconds.
pub proof fn lemma_timeout_setting_rule(setting: Option<u64>, default: u64)
    ensures
        setting == Some(0u64) ==> effective_timeout(setting, default) is None,
        setting matches Some(t) ==> (t != 0 ==> effective_timeout(setting, default) == Some(t)),
        setting is None ==> effective_timeout(setting, default) == Some(default),
        CONNECTION_TIMEOUT == 10000,
        WRITE_TIMEOUT == 10000,
        READ_TIMEOUT == 10000,
        TLS_HANDSHAKE_TIMEOUT == 10000,
{
}

/// What an interface's settings read as: its own port, else 853 for TLS and
/// 53 otherwise; and each timeout by the setting rule applied to its own
/// field with a ten-second default.
pub proof fn lemma_interface_settings(interface: InterfaceConfig)
    ensures
        interface.port matches Some(p) ==> interface.spec_port() == p,
        interface.port is None ==> interface.spec_port() == if interface.type_ == Transport::Tls {
            853u16
        } else {
            53u16
        },
        interface.spec_connection_timeout() == effective_timeout(
            interface.connection_timeout,
            10000u64,
        ),
        interface.spec_write_timeout() == effective_timeout(interface.write_timeout, 10000u64),
        interface.spec_read_timeout() == effective_timeout(interface.read_timeout, 10000u64),
        interface.spec_tls_handshake_timeout() == effective_timeout(
            interface.tls_handshake_timeout,
            10000u64,
        ),
{
}

/// What a server's timeouts read as: the setting rule applied to its own
/// fields with a ten-second default.
pub proof fn lemma_server_settings(server: UpstreamServerConfig)
    ensures
        server.spec_connection_timeout() == effective_timeout(server.connection_timeout, 10000u64),
        server.spec_write_timeout() == effective_timeout(server.write_timeout, 10000u64),
        server.spec_read_timeout() == effective_timeout(server.read_timeout, 10000u64),
        server.spec_tls_handshake_timeout() == effective_timeout(
            server.tls_handshake_timeout,
            10000u64,
        ),
{
}

/// Preparing the configuration keeps every timeout an upstream interface
/// sets (zero included) and gives each unset one the server's timeout as
/// read by the setting rule; the interface's other settings, the server's
/// own settings and the listeners stay as they were.
pub proof fn lemma_prepare_keeps_set_timeouts(prepared: Config, original: Config, i: int, j: int)
    requires
        config_prepared(prepared, original),
        0 <= i < original.upstream_servers@.len(),
        0 <= j < original.upstream_servers@[i].interfaces@.len(),
    ensures
        prepared.listen == original.listen,
        prepared.upstream_servers@.len() == original.upstream_servers@.len(),
        ({
            let s = original.upstream_servers@[i];
            let o = s.interfaces@[j];
            let ps = prepared.upstream_servers@[i];
            let n = ps.interfaces@[j];
            &&& ps.host == s.host
            &&& ps.connection_timeout == s.connection_timeout
            &&& ps.write_timeout == s.write_timeout
            &&& ps.read_timeout == s.read_timeout
            &&& ps.tls_handshake_timeout == s.tls_handshake_timeout
            &&& ps.interfaces@.len() == s.interfaces@.len()
            &&& n.type_ == o.type_
            &&& n.port == o.port
            &&& n.auth_name == o.auth_name
            &&& (o.connection_timeout is Some ==> n.connection_timeout == o.connection_timeout)
            &&& (o.write_timeout is Some ==> n.write_timeout == o.write_timeout)
            &&& (o.read_timeout is Some ==> n.read_timeout == o.read_timeout)
            &&& (o.tls_handshake_timeout is Some ==> n.tls_handshake_timeout
                == o.tls_handshake_timeout)
            &&& (o.connection_timeout is None ==> n.connection_timeout == effective_timeout(
                s.connection_timeout,
                10000u64,
            ))
            &&& (o.write_timeout is None ==> n.write_timeout == effective_timeout(
                s.write_timeout,
                10000u64,
            ))
            &&& (o.read_timeout is None ==> n.read_timeout == effective_timeout(
                s.read_timeout,
                10000u64,
            ))
            &&& (o.tls_handshake_timeout is None ==> n.tls_handshake_timeout == effective_timeout(
                s.tls_handshake_timeout,
                10000u64,
            ))
        }),
{
    assert(server_prepared(prepared.upstream_servers@[i], original.upstream_servers@[i]));
    assert(interface_inherits(
        prepared.upstream_servers@[i].interfaces@[j],
        original.upstream_servers@[i].interfaces@[j],
        original.upstream_servers@[i],
    ));
}

/// A timeout as read from the configuration is never zero: zero means that
/// there is no timeout, and the defaults are not zero.
pub proof fn lemma_effective_timeout_never_zero(setting: Option<u64>)
    ensures
        effective_timeout(setting, CONNECTION_TIMEOUT) != Some(0u64),
        effective_timeout(setting, WRITE_TIMEOUT) != Some(0u64),
        effective_timeout(setting, READ_TIMEOUT) != Some(0u64),
        effective_timeout(setting, TLS_HANDSHAKE_TIMEOUT) != Some(0u64),
{
}

/// Preparing a configuration a second time changes nothing: preparing twice
/// gives what preparing once gives.
pub proof fn lemma_prepare_config_idempotent(once: Config, original: Config, twice: Config)
    requires
        config_prepared(once, original),
        config_prepared(twice, once),
    ensures
        config_prepared(twice, original),
{
    assert forall|i: int| 0 <= i < original.upstream_servers@.len() implies #[trigger] server_prepared(
        twice.upstream_servers@[i],
        original.upstream_servers@[i],
    ) by {
        let a = original.upstream_servers@[i];
        let b = once.upstream_servers@[i];
        let c = twice.upstream_servers@[i];
        assert(server_prepared(b, a));
        assert(server_prepared(c, b));
        assert forall|j: int| 0 <= j < a.interfaces@.len() implies #[trigger] interface_inherits(
            c.interfaces@[j],
            a.interfaces@[j],
            a,
        ) by {
            assert(interface_inherits(b.interfaces@[j], a.interfaces@[j], a));
            assert(interface_inherits(c.interfaces@[j], b.interfaces@[j], b));
        }
    }
}

/// Why no configuration could be located.
#[derive(Clone, Copy, Debug, PartialEq, Eq, Structural)]
pub enum ConfigError {
    /// No command-line argument names a configuration file.
    MissingConfigPath,
}

impl ConfigError {
    /// The message shown to the user.
    pub fn message(&self) -> (m: String)
        ensures
            m@ == usage_text(),
    {
        let text = "Usage: stubdns --config=<config_path>";
        proof {
            reveal_strlit("Usage: stubdns --config=<config_path>");
        }
        String::from_str(text)
    }
}

pub open spec fn usage_text() -> Seq<char> {
    seq![
        'U', 's', 'a', 'g', 'e', ':', ' ', 's', 't', 'u', 'b', 'd', 'n', 's', ' ', '-', '-', 'c',
        'o', 'n', 'f', 'i', 'g', '=', '<', 'c', 'o', 'n', 'f', 'i', 'g', '_', 'p', 'a', 't', 'h',
        '>',
    ]
}

/// The command-line flag that names the configuration file.
pub open spec fn config_flag() -> Seq<char> {
    seq!['-', '-', 'c', 'o', 'n', 'f', 'i', 'g', '=']
}

/// Whether an argument has the form `--config=<path>`.
pub open spec fn is_config_arg(arg: Seq<char>) -> bool {
    arg.len() >= config_flag().len() && arg.subrange(0, config_flag().len() as int)
        == config_flag()
}

/// The path named by a `--config=<path>` argument.
pub open spec fn config_arg_path(arg: Seq<char>) -> Seq<char> {
    arg.subrange(config_flag().len() as int, arg.len() as int)
}

fn has_config_flag(arg: &str) -> (r: bool)
    ensures
        r == is_config_arg(arg@),
{
    let flag = "--config=";
    proof {
        reveal_strlit("--config=");
    }
    let n: usize = arg.unicode_len();
    let k: usize = flag.unicode_len();
    if n < k {
        return false;
    }
    let mut i: usize = 0;
    while i < k
        invariant
            0 <= i <= k,
            k == flag@.len(),
            flag@ == config_flag(),
            n == arg@.len(),
            n >= k,
            forall|m: int| 0 <= m < i ==> arg@[m] == flag@[m],
        decreases k - i,
    {
        if arg.get_char(i) != flag.get_char(i) {
            assert(arg@.subrange(0, k as int)[i as int] != config_flag()[i as int]);
            return false;
        }
        i = i + 1;
    }
    assert(arg@.subrange(0, k as int) =~= config_flag());
    true
}

/// Finds the configuration file named on the command line: the path of the
/// first argument of the form `--config=<path>`.
pub fn config_path_from_args(args: &Vec<String>) -> (r: Result<String, ConfigError>)
    ensures
        match r {
            Ok(path) => exists|i: int|
                0 <= i < args@.len() && is_config_arg(#[trigger] args@[i]@) && (forall|k: int|
                    0 <= k < i ==> !is_config_arg(#[trigger] args@[k]@)) && path@
                    == config_arg_path(args@[i]@),
            Err(e) => e == ConfigError::MissingConfigPath && forall|k: int|
                0 <= k < args@.len() ==> !is_config_arg(#[trigger] args@[k]@),
        },
{
    let mut i: usize = 0;
    while i < args.len()
        invariant
            0 <= i <= args@.len(),
            forall|k: int| 0 <= k < i ==> !is_config_arg(#[trigger] args@[k]@),
        decreases args@.len() - i,
    {
        let arg = args[i].as_str();
        if has_config_flag(arg) {
            let n: usize = arg.unicode_len();
            // The path follows the nine characters of the flag.
            let path = arg.substring_char(9, n);
            return Ok(String::from_str(path));
        }
        i = i + 1;
    }
    Err(ConfigError::MissingConfigPath)
}

} // verus!
