# stubdns

A DNS stub forwarder: it listens for DNS queries over UDP and TCP and forwards
them to upstream servers over UDP, TCP or TLS, through a pool of long-lived
upstream connections that a watchdog keeps healthy.

- `src/` is the verified library:
  - `config` — the configuration, its defaults (ports, timeouts), the
    inheritance of server-wide timeouts by interfaces, and locating the
    configuration file on the command line;
  - `connection` — upstream endpoints (`host:port` formatting, timeouts) and
    the settings a connection is re-created from;
  - `connection_manager` — building endpoints from the configuration and the
    TLS server name (through rustls);
  - `connection_pool` — which connections are available, being checked,
    lent or broken, and the laws the pool keeps over any sequence of calls;
  - `connection_watchdog` — what the watchdog does about each event;
  - `query` — the two-byte length framing of DNS over TCP.
- `app/` is the program around it: reading the configuration file, sockets,
  TLS handshakes, the listeners and the watchdog's event loop (tokio).
- `tests/` exercises the library on concrete values.
