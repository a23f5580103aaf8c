//! Networking decisions: whether this instance controls a player, which
//! client id is local, and keeping the replication tick in step with the
//! game clock.

use vstd::prelude::*;

verus! {

/// The client id of the server itself.
pub const SERVER_ID: u64 = 0;

/// An IP address.
#[derive(Debug, Clone, Copy, PartialEq, Eq, Structural)]
pub enum IpAddress {
    V4(u8, u8, u8, u8),
    V6(u16, u16, u16, u16, u16, u16, u16, u16),
}

/// Holds information about what ip and port to connect to, or host on.
#[derive(Debug, Clone, Copy, PartialEq, Eq, Structural)]
pub enum NetcodeConfig {
    Server {
        ip: IpAddress,
        port: u16,
        /// Whether or not to run the server in headless mode.
        headless: bool,
    },
    Client { ip: IpAddress, port: u16 },
}

/// Whether an instance with this configuration runs without a local player.
pub open spec fn is_headless(c: NetcodeConfig) -> bool {
    match c {
        NetcodeConfig::Server { headless, .. } => headless,
        NetcodeConfig::Client { .. } => false,
    }
}

impl NetcodeConfig {
    pub fn get_headless(&self) -> (res: bool)
        ensures
            res == is_headless(*self),
    {
        match self {
            NetcodeConfig::Server { headless, .. } => *headless,
            NetcodeConfig::Client { .. } => false,
        }
    }

    /// Whether systems that control a player should run here.
    pub fn not_headless(&self) -> (res: bool)
        ensures
            res == !is_headless(*self),
    {
        !self.get_headless()
    }
}

/// Finds the local player's client id.
pub struct ClientID;

impl ClientID {
    /// The client id of the local player: the client transport's id when this
    /// instance is a connected client (`transport_client_id`), else the server's
    /// own; `None` when the configuration is headless.
    pub fn client_id(transport_client_id: Option<u64>, config: &NetcodeConfig) -> (res: Option<u64>)
        ensures
            is_headless(*config) ==> res is None,
            !is_headless(*config) ==> res == Some(
                match transport_client_id {
                    Some(id) => id,
                    None => SERVER_ID,
                },
            ),
    {
        let local_id = match transport_client_id {
            Some(id) => id,
            None => SERVER_ID,
        };
        if config.get_headless() {
            None
        } else {
            Some(local_id)
        }
    }

    /// See [Self::client_id]; only for configurations that are not headless.
    pub fn assert_client_id(transport_client_id: Option<u64>, config: &NetcodeConfig) -> (res: u64)
        requires
            !is_headless(*config),
        ensures
            res == match transport_client_id {
                Some(id) => id,
                None => SERVER_ID,
            },
    {
        match Self::client_id(transport_client_id, config) {
            Some(id) => id,
            None => SERVER_ID,
        }
    }
}

/// The number of clients a server admits.
pub const MAX_CLIENTS: usize = 10;

/// How networking is set up for a configuration.
#[derive(Debug, Clone, Copy, PartialEq, Eq, Structural)]
pub enum NetcodeSetup {
    /// Host a server on `ip` and `port`, admitting up to `max_clients`
    /// clients, and spawn a player for `local_player` when there is one.
    Host { ip: IpAddress, port: u16, max_clients: usize, local_player: Option<u64> },
    /// Connect as the client `client_id` to the server at `ip` and `port`.
    Join { client_id: u64, ip: IpAddress, port: u16 },
}

/// What tearing down networking removes.
#[derive(Debug, Clone, Copy, PartialEq, Eq, Structural)]
pub enum NetcodeTeardown {
    /// Disconnect every client, then drop the server and the transport.
    Server,
    /// Disconnect from the server, then drop the client and the transport.
    Client,
}

/// An event of the server's connection handling.
#[derive(Debug, Clone, Copy, PartialEq, Eq, Structural)]
pub enum ServerEvent {
    ClientConnected { client_id: u64 },
    ClientDisconnected { client_id: u64 },
}

/// The clients that connected, in the order of the events.
pub open spec fn connected_clients(events: Seq<ServerEvent>) -> Seq<u64>
    decreases events.len(),
{
    if events.len() == 0 {
        Seq::empty()
    } else {
        let rest = connected_clients(events.drop_last());
        match events.last() {
            ServerEvent::ClientConnected { client_id } => rest.push(client_id),
            ServerEvent::ClientDisconnected { .. } => rest,
        }
    }
}

/// The networking systems.
pub struct NetcodePlugin;

impl NetcodePlugin {
    /// Sets up the server or the client the configuration asks for: a server
    /// hosts on its address and, unless headless, spawns the server's own
    /// player; a client takes the current time in milliseconds
    /// (`now_millis`, truncated to 64 bits) as its id and connects.
    pub fn add_netcode(config: &NetcodeConfig, now_millis: u128) -> (setup: NetcodeSetup)
        ensures
            setup == match *config {
                NetcodeConfig::Server { ip, port, headless } => NetcodeSetup::Host {
                    ip,
                    port,
                    max_clients: MAX_CLIENTS,
                    local_player: if headless {
                        None
                    } else {
                        Some(SERVER_ID)
                    },
                },
                NetcodeConfig::Client { ip, port } => NetcodeSetup::Join {
                    client_id: now_millis as u64,
                    ip,
                    port,
                },
            },
    {
        match config {
            NetcodeConfig::Server { ip, port, headless } => {
                let local_player = if *headless {
                    None
                } else {
                    Some(SERVER_ID)
                };
                NetcodeSetup::Host { ip: *ip, port: *port, max_clients: MAX_CLIENTS, local_player }
            },
            NetcodeConfig::Client { ip, port } => {
                NetcodeSetup::Join { client_id: now_millis as u64, ip: *ip, port: *port }
            },
        }
    }

    /// What leaving the game tears down, by the side this instance plays.
    pub fn disconnect_netcode(config: &NetcodeConfig) -> (teardown: NetcodeTeardown)
        ensures
            teardown == match *config {
                NetcodeConfig::Server { .. } => NetcodeTeardown::Server,
                NetcodeConfig::Client { .. } => NetcodeTeardown::Client,
            },
    {
        match config {
            NetcodeConfig::Server { .. } => NetcodeTeardown::Server,
            NetcodeConfig::Client { .. } => NetcodeTeardown::Client,
        }
    }

    /// The clients to spawn a player for: each one that connected, in the
    /// order of the events; disconnections are only logged.
    pub fn server_event_system(events: &Vec<ServerEvent>) -> (spawn_for: Vec<u64>)
        ensures
            spawn_for@ == connected_clients(events@),
    {
        let mut spawn_for: Vec<u64> = Vec::new();
        let mut i: usize = 0;
        while i < events.len()
            invariant
                i <= events.len(),
                spawn_for@ == connected_clients(events@.take(i as int)),
            decreases events.len() - i,
        {
            proof {
                assert(events@.take(i as int + 1).drop_last() =~= events@.take(i as int));
            }
            match events[i] {
                ServerEvent::ClientConnected { client_id } => spawn_for.push(client_id),
                ServerEvent::ClientDisconnected { .. } => {},
            }
            i = i + 1;
        }
        proof {
            assert(events@.take(events.len() as int) =~= events@);
        }
        spawn_for
    }

    /// Advances the game clock by one frame, then moves the replication tick
    /// forward to the game clock's frame if it is behind (it never moves back).
    pub fn frame_inc_and_replicon_tick_sync(game_frame: &mut u32, replicon_tick: &mut u32)
        requires
            *old(game_frame) < u32::MAX,
        ensures
            *final(game_frame) == *old(game_frame) + 1,
            *final(replicon_tick) == if *old(replicon_tick) < *final(game_frame) {
                *final(game_frame)
            } else {
                *old(replicon_tick)
            },
            *final(replicon_tick) >= *final(game_frame),
            *final(replicon_tick) >= *old(replicon_tick),
    {
        *game_frame = *game_frame + 1;
        let delta = game_frame.saturating_sub(*replicon_tick);
        *replicon_tick = *replicon_tick + delta;
    }
}

} // verus!
