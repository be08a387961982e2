//! Routing of an incoming connection once its handshake is read.
use vstd::prelude::*;

use crate::config::Config;
use crate::net::IpAddress;
use crate::proto::client::{spec_state_from_id, ClientState};
use crate::server::{Server, State};

verus! {

/// Where a connection goes after its handshake.
#[derive(Debug, Clone, Copy, PartialEq, Eq, Structural)]
pub enum Route {
    /// A banned IP, dropped without an answer.
    Drop,
    /// The client asked for a protocol state that does not exist; disconnect.
    UnknownState,
    /// Proxy the connection to the server, in the state the client asked for.
    Proxy(ClientState),
    /// Serve the connection from the status server, in the state the client asked for.
    Status(ClientState),
}

/// Where a connection from `ip` goes after a handshake that asks for state `next_state`.
pub open spec fn spec_route(
    server: &Server,
    config: &Config,
    ip: IpAddress,
    drop_banned_ips: bool,
    next_state: i32,
) -> Route {
    let banned = server.banned_ips.entry(ip) is Some;
    if banned && drop_banned_ips {
        Route::Drop
    } else {
        match spec_state_from_id(next_state) {
            None => Route::UnknownState,
            Some(state) => if !banned && server.state == State::Started && !config.lockout.enabled {
                Route::Proxy(state)
            } else {
                Route::Status(state)
            },
        }
    }
}

/// Decide where a connection from `ip` goes after its handshake.
///
/// A banned IP is dropped if `drop_banned_ips` is set; an unknown next state disconnects.
/// The connection is proxied to the server when the IP is not banned, the server is online
/// and lockout is disabled; otherwise the status server takes it.
pub fn route_handshake(
    server: &Server,
    config: &Config,
    ip: &IpAddress,
    drop_banned_ips: bool,
    next_state: i32,
) -> (res: Route)
    ensures
        res == spec_route(server, config, *ip, drop_banned_ips, next_state),
{
    let banned = server.is_banned_ip(ip);
    if banned && drop_banned_ips {
        return Route::Drop;
    }
    match ClientState::from_id(next_state) {
        None => Route::UnknownState,
        Some(state) => {
            if !banned && server.state() == State::Started && !config.lockout.enabled {
                Route::Proxy(state)
            } else {
                Route::Status(state)
            }
        },
    }
}

/// A connection is proxied exactly when the client asks for a known state, the server is
/// online, the IP is not banned and lockout is off: all other connections get the status
/// server, or are dropped or disconnected.
pub proof fn lemma_proxy_only_when_open(
    server: &Server,
    config: &Config,
    ip: IpAddress,
    drop_banned_ips: bool,
    next_state: i32,
)
    ensures
        spec_route(server, config, ip, drop_banned_ips, next_state) is Proxy <==> {
            &&& spec_state_from_id(next_state) is Some
            &&& server.state == State::Started
            &&& server.banned_ips.entry(ip) is None
            &&& !config.lockout.enabled
        },
{
}

} // verus!
