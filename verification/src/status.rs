//! Server status, as answered to clients that query it.
use vstd::prelude::*;

use vstd::string::StrSliceExecFns;

use crate::config::Config;
use crate::mc::ban::BannedIp;
use crate::mc::favicon;
use crate::net::IpAddress;
use crate::proto::client::{ClientInfo, ClientState};
use crate::proto::packets;
use crate::server::{Server, State};

verus! {

/// Server version in a status response.
#[derive(Debug, Clone)]
pub struct ServerVersion {
    /// Version name.
    pub name: String,
    /// Protocol version.
    pub protocol: u32,
}

/// A player listed in a status response.
#[derive(Debug, Clone)]
pub struct OnlinePlayer {
    /// Player name.
    pub name: String,
    /// Player UUID.
    pub id: String,
}

/// Players in a status response.
#[derive(Debug, Clone)]
pub struct OnlinePlayers {
    /// Number of players online.
    pub online: u32,
    /// Maximum number of players.
    pub max: u32,
    /// Some of the players online.
    pub sample: Vec<OnlinePlayer>,
}

/// Description (MOTD) in a status response.
#[derive(Debug, Clone)]
pub enum Description {
    /// A plain text message.
    Text(String),
    /// A chat component as the server sent it, in JSON.
    Server(String),
}

/// A server status response.
#[derive(Debug, Clone)]
pub struct ServerStatus {
    /// Server version.
    pub version: ServerVersion,
    /// Server description.
    pub description: Description,
    /// Players.
    pub players: OnlinePlayers,
    /// Server icon, as data URL.
    pub favicon: Option<String>,
}

impl OnlinePlayer {
    /// A copy of this player.
    pub fn duplicate(&self) -> (res: Self)
        ensures
            res == *self,
    {
        OnlinePlayer { name: self.name.clone(), id: self.id.clone() }
    }
}

impl ServerVersion {
    /// A copy of this version.
    pub fn duplicate(&self) -> (res: Self)
        ensures
            res == *self,
    {
        ServerVersion { name: self.name.clone(), protocol: self.protocol }
    }
}

impl Description {
    /// A copy of this description.
    pub fn duplicate(&self) -> (res: Self)
        ensures
            res == *self,
    {
        match self {
            Description::Text(t) => Description::Text(t.clone()),
            Description::Server(s) => Description::Server(s.clone()),
        }
    }
}

impl OnlinePlayers {
    /// A copy of these players.
    pub fn duplicate(&self) -> (res: Self)
        ensures
            res.online == self.online,
            res.max == self.max,
            res.sample@ == self.sample@,
    {
        let mut sample: Vec<OnlinePlayer> = Vec::new();
        let mut i: usize = 0;
        while i < self.sample.len()
            invariant
                i <= self.sample@.len(),
                sample@ =~= self.sample@.subrange(0, i as int),
            decreases self.sample.len() - i,
        {
            sample.push(self.sample[i].duplicate());
            i = i + 1;
        }
        proof {
            assert(sample@ =~= self.sample@);
        }
        OnlinePlayers { online: self.online, max: self.max, sample }
    }
}

impl ServerStatus {
    /// Both statuses say the same.
    pub open spec fn same(&self, other: &Self) -> bool {
        &&& self.version == other.version
        &&& self.description == other.description
        &&& self.players.online == other.players.online
        &&& self.players.max == other.players.max
        &&& self.players.sample@ == other.players.sample@
        &&& self.favicon == other.favicon
    }

    /// A copy of this status.
    pub fn duplicate(&self) -> (res: Self)
        ensures
            res.same(self),
    {
        ServerStatus {
            version: self.version.duplicate(),
            description: self.description.duplicate(),
            players: self.players.duplicate(),
            favicon: match &self.favicon {
                Some(f) => Some(f.clone()),
                None => None,
            },
        }
    }
}

/// The MOTD configured for a server state.
pub open spec fn spec_motd(config: &Config, state: State) -> String {
    match state {
        State::Stopped | State::Started => config.motd.sleeping,
        State::Starting => config.motd.starting,
        State::Stopping => config.motd.stopping,
    }
}

/// Whether the status answered to a client uses the real server status as it is: the server
/// is online and its status known.
pub open spec fn spec_passes_real_status(server: &Server) -> bool {
    server.state == State::Started && server.status is Some
}

/// Whether building the status answered to a client needs the favicon from disk: the client
/// supports favicons and the server's own is not used.
pub open spec fn spec_needs_disk_favicon(client_info: &ClientInfo, server: &Server, config: &Config) -> bool {
    &&& !spec_passes_real_status(server)
    &&& (match client_info.protocol {
        Some(p) => p >= favicon::FAVICON_PROTOCOL_VERSION,
        None => true,
    })
    &&& !(config.motd.from_server && (server.status matches Some(s) && s.favicon is Some))
}

/// Whether the status answered to the client needs the favicon from disk.
pub fn needs_disk_favicon(client_info: &ClientInfo, server: &Server, config: &Config) -> (res: bool)
    ensures
        res == spec_needs_disk_favicon(client_info, server, config),
{
    if server.state == State::Started && server.status.is_some() {
        return false;
    }
    if !favicon::supports_favicon(client_info) {
        return false;
    }
    let from_server = config.motd.from_server && match &server.status {
        Some(s) => s.favicon.is_some(),
        None => false,
    };
    !from_server
}

/// Build server status object to respond to client with.
///
/// An online server with known status answers its real status. Otherwise the last known
/// version and player maximum are used (else the configured version and 0), the server's
/// MOTD if configured and known (else the MOTD for the state), nobody online, and a favicon
/// if the client supports them: the server's if configured and known, else `disk_favicon`,
/// the server icon from disk or the default icon.
pub fn server_status(
    client_info: &ClientInfo,
    server: &Server,
    config: &Config,
    disk_favicon: Option<String>,
) -> (res: ServerStatus)
    ensures
        spec_passes_real_status(server) ==> res.same(&server.status->Some_0),
        !spec_passes_real_status(server) ==> {
            &&& res.version == match server.status {
                Some(s) => s.version,
                None => ServerVersion { name: config.public.version, protocol: config.public.protocol },
            }
            &&& res.players.online == 0
            &&& res.players.max == match server.status {
                Some(s) => s.players.max,
                None => 0,
            }
            &&& res.players.sample@.len() == 0
            &&& res.description == if config.motd.from_server && server.status is Some {
                server.status->Some_0.description
            } else {
                Description::Text(spec_motd(config, server.state))
            }
            &&& !(config.motd.from_server && server.status is Some) ==> {
                &&& server.state == State::Stopped ==> res.description == Description::Text(config.motd.sleeping)
                &&& server.state == State::Starting ==> res.description == Description::Text(config.motd.starting)
                &&& server.state == State::Stopping ==> res.description == Description::Text(config.motd.stopping)
            }
            &&& res.favicon == if !(match client_info.protocol {
                Some(p) => p >= favicon::FAVICON_PROTOCOL_VERSION,
                None => true,
            }) {
                None
            } else if config.motd.from_server && (server.status matches Some(s) && s.favicon is Some) {
                server.status->Some_0.favicon
            } else {
                disk_favicon
            }
        },
{
    if server.state == State::Started {
        if let Some(status) = &server.status {
            return status.duplicate();
        }
    }
    let (version, max) = match &server.status {
        Some(status) => (status.version.duplicate(), status.players.max),
        None => (
            ServerVersion { name: config.public.version.clone(), protocol: config.public.protocol },
            0,
        ),
    };
    let description = match &server.status {
        Some(status) if config.motd.from_server => status.description.duplicate(),
        _ => Description::Text(
            match server.state {
                State::Stopped | State::Started => config.motd.sleeping.clone(),
                State::Starting => config.motd.starting.clone(),
                State::Stopping => config.motd.stopping.clone(),
            },
        ),
    };
    let mut favicon: Option<String> = None;
    if favicon::supports_favicon(client_info) {
        if config.motd.from_server {
            if let Some(status) = &server.status {
                favicon = match &status.favicon {
                    Some(f) => Some(f.clone()),
                    None => None,
                };
            }
        }
        if favicon.is_none() {
            favicon = disk_favicon;
        }
    }
    ServerStatus {
        version,
        description,
        players: OnlinePlayers { online: 0, max, sample: Vec::new() },
        favicon,
    }
}

/// The ban message prefix.
pub const BAN_MESSAGE_PREFIX: &'static str = "Your IP address is banned from this server.\nReason: ";

/// Default ban reason if unknown.
pub const DEFAULT_BAN_REASON: &'static str = "Banned by an operator.";

/// The not-whitelisted kick message.
pub const WHITELIST_MESSAGE: &'static str = "You are not white-listed on this server!";

/// Server icon file path.
pub const SERVER_ICON_FILE: &'static str = "server-icon.png";

/// What the status server does with a packet from a client.
#[derive(Debug, Clone, Copy, PartialEq, Eq, Structural)]
pub enum StatusPacket {
    /// Answer a ping by echoing it.
    Ping,
    /// Answer a status request with the server status.
    Status,
    /// A player logs in: kick or start the server and occupy the client.
    LoginStart,
    /// Nothing to do with it.
    Unhandled,
}

/// How the status server handles a packet in a client state.
pub open spec fn spec_status_packet(state: ClientState, id: u8) -> StatusPacket {
    if state == ClientState::Status && id == packets::status::SERVER_PING {
        StatusPacket::Ping
    } else if state == ClientState::Status && id == packets::status::SERVER_STATUS {
        StatusPacket::Status
    } else if state == ClientState::Login && id == packets::login::SERVER_LOGIN_START {
        StatusPacket::LoginStart
    } else {
        StatusPacket::Unhandled
    }
}

/// Decide how the status server handles a packet: pings and status requests in the status
/// state are answered, login start in the login state is taken over, the rest is ignored.
pub fn status_packet(state: ClientState, id: u8) -> (res: StatusPacket)
    ensures
        res == spec_status_packet(state, id),
{
    if state == ClientState::Status && id == packets::status::SERVER_PING {
        StatusPacket::Ping
    } else if state == ClientState::Status && id == packets::status::SERVER_STATUS {
        StatusPacket::Status
    } else if state == ClientState::Login && id == packets::login::SERVER_LOGIN_START {
        StatusPacket::LoginStart
    } else {
        StatusPacket::Unhandled
    }
}

/// What to do with a client that starts to log in.
#[derive(Debug)]
pub enum LoginDecision {
    /// Kick the client with this message.
    Kick(String),
    /// Start the server and occupy the client.
    Start,
}

/// The reason shown to a banned client.
pub open spec fn spec_ban_reason(ban: BannedIp) -> Seq<char> {
    if ban.reason@.len() == 0 {
        DEFAULT_BAN_REASON@
    } else {
        ban.reason@
    }
}

/// Whether a user may wake the server: listed on the whitelist, or no whitelist is used.
pub open spec fn spec_may_wake(server: &Server, username: Seq<char>) -> bool {
    match server.whitelist {
        Some(w) => w.spec_is_whitelisted(username),
        None => true,
    }
}

/// The kick message for a client that starts to log in, if it is kicked: everybody while
/// lockout is enabled, a banned IP, and a user who may not wake the server.
pub open spec fn spec_login_kick(
    config: &Config,
    server: &Server,
    ip: IpAddress,
    username: Option<Seq<char>>,
) -> Option<Seq<char>> {
    if config.lockout.enabled {
        Some(config.lockout.message@)
    } else if server.banned_ips.entry(ip) is Some {
        Some(BAN_MESSAGE_PREFIX@ + spec_ban_reason(server.banned_ips.entry(ip)->Some_0))
    } else if username matches Some(u) && !spec_may_wake(server, u) {
        Some(WHITELIST_MESSAGE@)
    } else {
        None
    }
}

/// The view of an optional string.
pub open spec fn opt_view(s: Option<String>) -> Option<Seq<char>> {
    match s {
        Some(v) => Some(v@),
        None => None,
    }
}

/// Decide on a client that starts to log in from `ip`, with the username its login start
/// packet gave if it could be read.
///
/// Kicks everybody while lockout is enabled, then banned IPs (with the ban reason, or a
/// default one), then users that are not whitelisted; anyone else starts the server.
pub fn login_start(config: &Config, server: &Server, ip: &IpAddress, username: &Option<String>) -> (res: LoginDecision)
    ensures
        match res {
            LoginDecision::Kick(msg) => spec_login_kick(config, server, *ip, opt_view(*username)) == Some(msg@),
            LoginDecision::Start => spec_login_kick(config, server, *ip, opt_view(*username)) is None,
        },
        !config.lockout.enabled && server.banned_ips.entry(*ip) is None && server.whitelist is None
            ==> res is Start,
{
    if config.lockout.enabled {
        return LoginDecision::Kick(config.lockout.message.clone());
    }
    if let Some(ban) = server.ban_entry(ip) {
        if ban.is_banned() {
            let mut msg = String::from_str(BAN_MESSAGE_PREFIX);
            if ban.reason.as_str().unicode_len() == 0 {
                msg.append(DEFAULT_BAN_REASON);
            } else {
                msg.append(ban.reason.as_str());
            }
            return LoginDecision::Kick(msg);
        }
    }
    if let Some(name) = username {
        if !server.is_whitelisted(name.as_str()) {
            return LoginDecision::Kick(String::from_str(WHITELIST_MESSAGE));
        }
    }
    LoginDecision::Start
}

/// The MOTD shown for a server that does not pass its own: the sleeping one while stopped
/// (or online without a known status), the starting one while starting, the stopping one
/// while stopping.
pub proof fn lemma_motd_follows_state(config: &Config, state: State)
    ensures
        state == State::Stopped ==> spec_motd(config, state) == config.motd.sleeping,
        state == State::Started ==> spec_motd(config, state) == config.motd.sleeping,
        state == State::Starting ==> spec_motd(config, state) == config.motd.starting,
        state == State::Stopping ==> spec_motd(config, state) == config.motd.stopping,
{
}

/// Who is kicked on login: with lockout off and the IP not banned, nobody is kicked while no
/// whitelist is used, and a whitelisted user is never kicked; with lockout on, everybody is.
pub proof fn lemma_login_kicks(
    config: &Config,
    server: &Server,
    ip: IpAddress,
    username: Option<Seq<char>>,
)
    ensures
        config.lockout.enabled ==> spec_login_kick(config, server, ip, username) == Some(
            config.lockout.message@,
        ),
        !config.lockout.enabled && server.banned_ips.entry(ip) is None && server.whitelist is None
            ==> spec_login_kick(config, server, ip, username) is None,
        !config.lockout.enabled && server.banned_ips.entry(ip) is None && (server.whitelist matches Some(
            w,
        ) && username matches Some(u) && w.spec_is_whitelisted(u)) ==> spec_login_kick(
            config,
            server,
            ip,
            username,
        ) is None,
        !config.lockout.enabled && server.banned_ips.entry(ip) is None && username is None
            ==> spec_login_kick(config, server, ip, username) is None,
{
}

} // verus!
