use crate::config::{Config, InterfaceConfig, UpstreamServerConfig};
use crate::connection::Connection;
use crate::connection_pool::ConnectionPool;
use vstd::prelude::*;

verus! {

/// What wakes the watchdog up.
#[derive(Clone, Copy, Debug, PartialEq, Eq, Structural)]
pub enum WatchdogEvent {
    /// The pool reported the connection at this index as broken.
    Broken(usize),
    /// The channel of broken-connection reports was closed.
    ChannelClosed,
    /// The periodic health check is due.
    HealthCheckDue,
}

/// What the watchdog does about an event.
#[derive(Debug)]
pub enum WatchdogAction {
    /// Create a connection from these settings and put it in place of the
    /// one at `index`.
    Reconnect { index: usize, server: UpstreamServerConfig, interface: InterfaceConfig },
    /// Nothing to do.
    Ignore,
    /// Check the health of the connections at these indices, in order, and
    /// mark the unhealthy ones broken.
    CheckHealth(Vec<usize>),
    /// Stop watching.
    Shutdown,
}

/// Keeps the pool's connections alive: re-creates broken ones and checks
/// them all periodically.
pub struct ConnectionWatchdog {
    pub config: Config,
}

/// The indices `0, 1, ..., len - 1`.
pub open spec fn all_indices(len: nat) -> Seq<usize> {
    Seq::new(len, |i: int| i as usize)
}

impl ConnectionWatchdog {
    pub fn new(config: Config) -> (w: Self)
        ensures
            w.config == config,
    {
        ConnectionWatchdog { config }
    }

    /// Decides what to do about `event`, given the pool's current state.
    pub fn handle_event<U, T, L>(
        &self,
        pool: &ConnectionPool<Connection<U, T, L>>,
        event: WatchdogEvent,
    ) -> (action: WatchdogAction)
        ensures
            match event {
                WatchdogEvent::Broken(index) => if index < pool@.connections.len() {
                    match action {
                        WatchdogAction::Reconnect { index: i, server, interface } => i == index
                            && pool@.connections[index as int].recovers(server, interface),
                        _ => false,
                    }
                } else {
                    action is Ignore
                },
                WatchdogEvent::ChannelClosed => action is Shutdown,
                WatchdogEvent::HealthCheckDue => match action {
                    WatchdogAction::CheckHealth(indices) => indices@ == all_indices(
                        pool@.connections.len(),
                    ),
                    _ => false,
                },
            },
    {
        match event {
            WatchdogEvent::Broken(index) => match pool.get_connection(index) {
                Some(conn) => {
                    let (server, interface) = conn.to_server_and_interface_config();
                    WatchdogAction::Reconnect { index, server, interface }
                },
                None => WatchdogAction::Ignore,
            },
            WatchdogEvent::ChannelClosed => WatchdogAction::Shutdown,
            WatchdogEvent::HealthCheckDue => {
                let n: usize = pool.len();
                let mut indices: Vec<usize> = Vec::new();
                let mut i: usize = 0;
                while i < n
                    invariant
                        0 <= i <= n,
                        indices@ == all_indices(i as nat),
                    decreases n - i,
                {
                    indices.push(i);
                    i = i + 1;
                    proof {
                        assert(indices@ =~= all_indices(i as nat));
                    }
                }
                WatchdogAction::CheckHealth(indices)
            },
        }
    }
}

} // verus!
