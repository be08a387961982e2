//! Configuration, as loaded from `lazymc.toml`.
use version_compare::Cmp;
use vstd::prelude::*;

use crate::net::{IpAddress, SocketAddress};
use crate::proto;

verus! {

/// Default configuration file location.
pub const CONFIG_FILE: &'static str = "lazymc.toml";

/// Configuration version user should be using, or warning will be shown.
pub const CONFIG_VERSION: &'static str = "0.2.0";

/// Configuration.
#[derive(Debug)]
pub struct Config {
    /// Public configuration.
    pub public: Public,
    /// Server configuration.
    pub server: Server,
    /// Time configuration.
    pub time: Time,
    /// MOTD configuration.
    pub motd: Motd,
    /// Join configuration.
    pub join: Join,
    /// Join kick configuration.
    pub join_kick: JoinKick,
    /// Join hold configuration.
    pub join_hold: JoinHold,
    /// Lockout feature.
    pub lockout: Lockout,
    /// RCON configuration.
    pub rcon: Rcon,
    /// Advanced configuration.
    pub advanced: Advanced,
    /// Config configuration.
    pub config: ConfigConfig,
}

/// What the configured version says about the configuration file.
#[derive(Debug, Clone, Copy, PartialEq, Eq, Structural)]
pub enum ConfigVersionStatus {
    /// No version given: it may be outdated.
    Unknown,
    /// Older than the version this lazymc expects.
    Outdated,
    /// Not a version number.
    Invalid,
    /// Up to date.
    Current,
}

/// Whether version `a` is at least version `b`, or `None` if either is no version number.
pub uninterp spec fn version_at_least(a: Seq<char>, b: Seq<char>) -> Option<bool>;

/// Compare two version numbers.
///
/// Calls `version_compare::compare_to` with `Cmp::Ge`. Claimed: the result is the named
/// comparison of the two strings, an error where it names none.
#[verifier::external_body]
fn compare_version_at_least(a: &str, b: &str) -> (res: Result<bool, ()>)
    ensures
        match version_at_least(a@, b@) {
            Some(ge) => res == Ok::<bool, ()>(ge),
            None => res is Err,
        },
{
    version_compare::compare_to(a, b, Cmp::Ge)
}

/// The status of a configured config version, against `CONFIG_VERSION`.
pub open spec fn spec_config_version_status(version: Option<Seq<char>>) -> ConfigVersionStatus {
    match version {
        None => ConfigVersionStatus::Unknown,
        Some(v) => match version_at_least(v, CONFIG_VERSION@) {
            Some(true) => ConfigVersionStatus::Current,
            Some(false) => ConfigVersionStatus::Outdated,
            None => ConfigVersionStatus::Invalid,
        },
    }
}

impl Config {
    /// Check the configured config version, for the warnings shown on load.
    pub fn version_status(&self) -> (res: ConfigVersionStatus)
        ensures
            res == spec_config_version_status(
                match self.config.version {
                    Some(v) => Some(v@),
                    None => None,
                },
            ),
    {
        match &self.config.version {
            None => ConfigVersionStatus::Unknown,
            Some(version) => status_of_comparison(
                compare_version_at_least(version.as_str(), CONFIG_VERSION),
            ),
        }
    }
}

/// The status of a configured version, from whether it is at least `CONFIG_VERSION`: an
/// error means it is no version number.
pub fn status_of_comparison(at_least: Result<bool, ()>) -> (res: ConfigVersionStatus)
    ensures
        res == match at_least {
            Ok(true) => ConfigVersionStatus::Current,
            Ok(false) => ConfigVersionStatus::Outdated,
            Err(_) => ConfigVersionStatus::Invalid,
        },
{
    match at_least {
        Ok(false) => ConfigVersionStatus::Outdated,
        Err(_) => ConfigVersionStatus::Invalid,
        Ok(true) => ConfigVersionStatus::Current,
    }
}

/// Public configuration.
#[derive(Debug)]
pub struct Public {
    /// Public address.
    pub address: SocketAddress,
    /// Minecraft protocol version name hint.
    pub version: String,
    /// Minecraft protocol version hint.
    pub protocol: u32,
}

impl Default for Public {
    fn default() -> (res: Self)
        ensures
            res.address == (SocketAddress { ip: IpAddress::V4(0), port: 25565 }),
            res.version@ == proto::PROTO_DEFAULT_VERSION@,
            res.protocol == proto::PROTO_DEFAULT_PROTOCOL,
    {
        Self {
            address: SocketAddress { ip: IpAddress::V4(0), port: 25565 },
            version: String::from_str(proto::PROTO_DEFAULT_VERSION),
            protocol: proto::PROTO_DEFAULT_PROTOCOL,
        }
    }
}

/// Server configuration.
#[derive(Debug)]
pub struct Server {
    /// Server directory.
    pub directory: Option<String>,
    /// Start command.
    pub command: String,
    /// Server address.
    pub address: SocketAddress,
    /// Immediately wake server when starting lazymc.
    pub wake_on_start: bool,
    /// Immediately wake server after crash.
    pub wake_on_crash: bool,
    /// Server starting timeout. Force kill server process if it takes longer.
    pub start_timeout: u32,
    /// Server stopping timeout. Force kill server process if it takes longer.
    pub stop_timeout: u32,
}

/// Time configuration.
#[derive(Debug)]
pub struct Time {
    /// Sleep after number of seconds.
    pub sleep_after: u32,
    /// Minimum time in seconds to stay online when server is started.
    pub min_online_time: u32,
}

impl Default for Time {
    fn default() -> (res: Self)
        ensures
            res.sleep_after == 60,
            res.min_online_time == 60,
    {
        Self { sleep_after: 60, min_online_time: 60 }
    }
}

/// MOTD configuration.
#[derive(Debug)]
pub struct Motd {
    /// MOTD when server is sleeping.
    pub sleeping: String,
    /// MOTD when server is starting.
    pub starting: String,
    /// MOTD when server is stopping.
    pub stopping: String,
    /// Use MOTD from Minecraft server once known.
    pub from_server: bool,
}

impl Default for Motd {
    fn default() -> (res: Self)
        ensures
            res.sleeping@ == "☠ Server is sleeping\n§2☻ Join to start it up"@,
            res.starting@ == "§2☻ Server is starting...\n§7⌛ Please wait..."@,
            res.stopping@ == "☠ Server going to sleep...\n⌛ Please wait..."@,
            !res.from_server,
    {
        Self {
            sleeping: String::from_str("☠ Server is sleeping\n§2☻ Join to start it up"),
            starting: String::from_str("§2☻ Server is starting...\n§7⌛ Please wait..."),
            stopping: String::from_str("☠ Server going to sleep...\n⌛ Please wait..."),
            from_server: false,
        }
    }
}

/// Join method types.
#[derive(Debug, Copy, Clone, PartialEq, Eq, Structural)]
pub enum Method {
    Hold,
    Kick,
}

/// Join configuration.
#[derive(Debug)]
pub struct Join {
    /// Join methods.
    pub methods: Vec<Method>,
}

impl Default for Join {
    fn default() -> (res: Self)
        ensures
            res.methods@ == seq![Method::Hold, Method::Kick],
    {
        Self { methods: vec![Method::Hold, Method::Kick] }
    }
}

/// Join kick configuration.
#[derive(Debug)]
pub struct JoinKick {
    /// Kick message when server is starting.
    pub starting: String,
    /// Kick message when server is stopping.
    pub stopping: String,
}

impl Default for JoinKick {
    fn default() -> (res: Self)
        ensures
            res.starting@
                == "Server is starting... §c♥§r\n\nThis may take some time.\n\nPlease try to reconnect in a minute."@,
            res.stopping@
                == "Server is going to sleep... §7☠§r\n\nPlease try to reconnect in a minute to wake it again."@,
    {
        Self {
            starting: String::from_str(
                "Server is starting... §c♥§r\n\nThis may take some time.\n\nPlease try to reconnect in a minute.",
            ),
            stopping: String::from_str(
                "Server is going to sleep... §7☠§r\n\nPlease try to reconnect in a minute to wake it again.",
            ),
        }
    }
}

/// Join hold configuration.
#[derive(Debug)]
pub struct JoinHold {
    /// Hold client for number of seconds on connect while server starts.
    pub timeout: u32,
}

impl JoinHold {
    /// Whether to hold clients.
    pub fn hold(&self) -> (res: bool)
        ensures
            res == (self.timeout > 0),
    {
        self.timeout > 0
    }
}

impl Default for JoinHold {
    fn default() -> (res: Self)
        ensures
            res.timeout == 25,
    {
        Self { timeout: 25 }
    }
}

/// Lockout configuration.
#[derive(Debug)]
pub struct Lockout {
    /// Enable to prevent everybody from connecting through lazymc. Instantly kicks player.
    pub enabled: bool,
    /// Kick players with following message.
    pub message: String,
}

impl Default for Lockout {
    fn default() -> (res: Self)
        ensures
            !res.enabled,
            res.message@ == "Server is closed §7☠§r\n\nPlease come back another time."@,
    {
        Self {
            enabled: false,
            message: String::from_str("Server is closed §7☠§r\n\nPlease come back another time."),
        }
    }
}

/// RCON configuration.
#[derive(Debug)]
pub struct Rcon {
    /// Enable sleeping server through RCON.
    pub enabled: bool,
    /// Server RCON port.
    pub port: u16,
    /// Server RCON password.
    pub password: String,
    /// Randomize server RCON password on each start.
    pub randomize_password: bool,
}

impl Default for Rcon {
    fn default() -> (res: Self)
        ensures
            res.enabled,
            res.port == 25575,
            res.password@ == Seq::<char>::empty(),
            res.randomize_password,
    {
        Self { enabled: true, port: 25575, password: String::new(), randomize_password: true }
    }
}

/// Advanced configuration.
#[derive(Debug)]
pub struct Advanced {
    /// Rewrite server.properties.
    pub rewrite_server_properties: bool,
}

impl Default for Advanced {
    fn default() -> (res: Self)
        ensures
            res.rewrite_server_properties,
    {
        Self { rewrite_server_properties: true }
    }
}

/// Config configuration.
#[derive(Debug)]
pub struct ConfigConfig {
    /// Configuration for lazymc version.
    pub version: Option<String>,
}

impl Default for ConfigConfig {
    fn default() -> (res: Self)
        ensures
            res.version is None,
    {
        Self { version: None }
    }
}

/// Default server directory: the working directory.
pub fn option_pathbuf_dot() -> (res: Option<String>)
    ensures
        res matches Some(dir) && dir@ == "."@,
{
    Some(String::from_str("."))
}

/// Default server address: 127.0.0.1:25566.
pub fn server_address_default() -> (res: SocketAddress)
    ensures
        res == (SocketAddress { ip: IpAddress::V4(0x7f00_0001), port: 25566 }),
{
    SocketAddress { ip: IpAddress::V4(0x7f00_0001), port: 25566 }
}

/// Default server starting timeout in seconds.
pub fn u32_300() -> (res: u32)
    ensures
        res == 300,
{
    300
}

/// Default server stopping timeout in seconds.
///
/// This gives 300 seconds, as the starting timeout does.
pub fn u32_150() -> (res: u32)
    ensures
        res == 300,
{
    300
}

} // verus!
