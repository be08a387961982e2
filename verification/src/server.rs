//! Shared server state and the decisions taken on it: state changes, when to sleep and when
//! to force kill the server process.
//!
//! Times are readings of a monotonic clock in milliseconds.
use vstd::prelude::*;

use crate::config::Config;
use crate::mc::ban::{BannedIp, BannedIps};
use crate::mc::whitelist::Whitelist;
use crate::net::IpAddress;
use crate::status::ServerStatus;
use crate::util::text::texts;

verus! {

/// Clock readings stay below this bound.
pub const TIME_LIMIT: u64 = 0x4000_0000_0000_0000;

/// RCON cooldown in milliseconds. Required period between RCON invocations.
///
/// The Minecraft RCON implementation is very broken and brittle, this is used in the hopes to
/// improve reliability.
pub const RCON_COOLDOWN: u64 = 15_000;

/// Server state.
#[derive(Debug, Copy, Clone, PartialEq, Eq, Structural)]
pub enum State {
    /// Server is stopped.
    Stopped,
    /// Server is starting.
    Starting,
    /// Server is online and responding.
    Started,
    /// Server is stopping.
    Stopping,
}

/// The number of a state.
pub open spec fn spec_state_u8(state: State) -> u8 {
    match state {
        State::Stopped => 0,
        State::Starting => 1,
        State::Started => 2,
        State::Stopping => 3,
    }
}

impl State {
    /// From u8; the number must be one of a state.
    pub fn from_u8(state: u8) -> (res: Self)
        requires
            state <= 3,
        ensures
            spec_state_u8(res) == state,
    {
        match state {
            0 => Self::Stopped,
            1 => Self::Starting,
            2 => Self::Started,
            _ => Self::Stopping,
        }
    }

    /// To u8.
    pub fn to_u8(self) -> (res: u8)
        ensures
            res == spec_state_u8(self),
    {
        match self {
            Self::Stopped => 0,
            Self::Starting => 1,
            Self::Started => 2,
            Self::Stopping => 3,
        }
    }
}

/// A state read back from its number is that state; every number up to 3 is the number of
/// exactly one state.
pub proof fn lemma_state_u8_roundtrip(state: State, n: u8)
    ensures
        spec_state_u8(state) <= 3,
        forall|s: State| spec_state_u8(s) == spec_state_u8(state) ==> s == state,
        n <= 3 ==> exists|s: State| spec_state_u8(s) == n,
{
    if n <= 3 {
        if n == 0 {
            assert(spec_state_u8(State::Stopped) == n);
        } else if n == 1 {
            assert(spec_state_u8(State::Starting) == n);
        } else if n == 2 {
            assert(spec_state_u8(State::Started) == n);
        } else {
            assert(spec_state_u8(State::Stopping) == n);
        }
    }
}

/// The time `secs` seconds after `now`.
pub open spec fn secs_after(now: u64, secs: u32) -> u64 {
    (now + secs * 1000) as u64
}

/// Milliseconds passed from `since` to `now`, none if `since` is later.
pub open spec fn elapsed(since: u64, now: u64) -> u64 {
    if now >= since {
        (now - since) as u64
    } else {
        0
    }
}

/// When a server that just changed to `new` is force killed: after the start or stop
/// timeout, if set, while it starts or stops.
pub open spec fn spec_kill_at(new: State, config: &Config, now: u64) -> Option<u64> {
    if new == State::Starting && config.server.start_timeout > 0 {
        Some(secs_after(now, config.server.start_timeout))
    } else if new == State::Stopping && config.server.stop_timeout > 0 {
        Some(secs_after(now, config.server.stop_timeout))
    } else {
        None
    }
}

/// Until when a server is kept online for `duration` seconds from `now`: not at all for no
/// duration or a zero duration.
pub open spec fn spec_keep_online_until(duration: Option<u32>, now: u64) -> Option<u64> {
    match duration {
        Some(d) => if d > 0 {
            Some(secs_after(now, d))
        } else {
            None
        },
        None => None,
    }
}

/// The state `update_status` moves to: online once a status is known, offline once it is
/// lost while online.
pub open spec fn spec_status_state(state: State, online: bool) -> State {
    if (state == State::Stopped || state == State::Starting) && online {
        State::Started
    } else if state == State::Started && !online {
        State::Stopped
    } else {
        state
    }
}

/// How a server process ended.
#[derive(Debug, Clone, Copy, PartialEq, Eq, Structural)]
pub enum ProcessExit {
    /// The process exited, successfully or with this code (none if killed by a signal).
    Exited { success: bool, code: Option<i32> },
    /// Waiting for the process failed.
    WaitFailed,
}

/// Exit codes that are allowed: 130 (SIGINT) and 143 (SIGTERM).
pub open spec fn spec_allowed_exit_code(code: i32) -> bool {
    code == 130 || code == 143
}

/// Whether a server process that ended so crashed: it failed with a code that is not allowed
/// while the server was online.
pub open spec fn spec_exit_is_crash(exit: ProcessExit, state: State) -> bool {
    match exit {
        ProcessExit::Exited { success, code } => !success && !(code matches Some(c)
            && spec_allowed_exit_code(c)) && state == State::Started,
        ProcessExit::WaitFailed => false,
    }
}

/// Whether the exit code is allowed as a successful stop.
pub fn is_allowed_exit_code(code: i32) -> (res: bool)
    ensures
        res == spec_allowed_exit_code(code),
{
    code == 130 || code == 143
}

/// Decide whether a server process that ended this way crashed, to restart it on crash.
pub fn exit_is_crash(exit: ProcessExit, state: State) -> (res: bool)
    ensures
        res == spec_exit_is_crash(exit, state),
{
    match exit {
        ProcessExit::Exited { success, code } => {
            if success {
                false
            } else if match code {
                Some(c) => is_allowed_exit_code(c),
                None => false,
            } {
                false
            } else {
                state == State::Started
            }
        },
        ProcessExit::WaitFailed => false,
    }
}

/// How to stop the server.
#[derive(Debug, Clone, Copy, PartialEq, Eq, Structural)]
pub enum StopStep {
    /// Send the stop command over RCON.
    Rcon,
    /// Send a termination signal to the process with this PID.
    Signal(u32),
    /// No way to stop the server is left.
    GiveUp,
}

/// Shared server state.
#[derive(Debug)]
pub struct Server {
    /// Server state.
    pub state: State,
    /// Server process PID, set while a server process is running.
    pub pid: Option<u32>,
    /// Last known server status; kept once known, also when the server goes offline.
    pub status: Option<ServerStatus>,
    /// Last time there was activity on the server; also set when the server comes online.
    pub last_active: Option<u64>,
    /// Force server to stay online until.
    pub keep_online_until: Option<u64>,
    /// Time to force kill the server process at; the starting/stopping timeout.
    pub kill_at: Option<u64>,
    /// List of banned IPs.
    pub banned_ips: BannedIps,
    /// Whitelist if enabled.
    pub whitelist: Option<Whitelist>,
    /// Last time server was stopped over RCON.
    pub rcon_last_stop: Option<u64>,
}

impl Server {
    /// A kill time is only set while the server starts or stops.
    pub open spec fn wf(&self) -> bool {
        self.kill_at is Some ==> (self.state == State::Starting || self.state == State::Stopping)
    }

    /// The server keeps its process, status, bans, whitelist and RCON record.
    pub open spec fn same_records(&self, other: &Self) -> bool {
        &&& self.pid == other.pid
        &&& self.status == other.status
        &&& self.banned_ips == other.banned_ips
        &&& self.whitelist == other.whitelist
        &&& self.rcon_last_stop == other.rcon_last_stop
    }

    /// Whether the server should sleep at `now`: it is online, nobody plays, it is not kept
    /// online and it has been idle for the configured time.
    pub open spec fn spec_should_sleep(&self, config: &Config, now: u64) -> bool {
        &&& self.state == State::Started
        &&& !(self.status matches Some(status) && status.players.online > 0)
        &&& !(self.keep_online_until matches Some(until) && until >= now)
        &&& self.last_active matches Some(since) && elapsed(since, now) >= config.time.sleep_after
            * 1000
    }

    /// Whether the server process is due to be force killed at `now`.
    pub open spec fn spec_should_kill(&self, now: u64) -> bool {
        self.kill_at matches Some(at) && at <= now
    }

    /// Get current state.
    pub fn state(&self) -> (res: State)
        ensures
            res == self.state,
    {
        self.state
    }

    /// Set a new state.
    ///
    /// Returns false if the state didn't change, in which case nothing else changes.
    pub fn update_state(&mut self, state: State, config: &Config, now: u64) -> (res: bool)
        requires
            old(self).wf(),
            now < TIME_LIMIT,
        ensures
            final(self).wf(),
            final(self).state == state,
            res == (old(self).state != state),
            res ==> final(self).kill_at == spec_kill_at(state, config, now),
            !res ==> final(self).kill_at == old(self).kill_at,
            (res && old(self).state == State::Starting && state == State::Started) ==> {
                &&& final(self).last_active == Some(now)
                &&& final(self).keep_online_until == spec_keep_online_until(
                    Some(config.time.min_online_time),
                    now,
                )
            },
            !(res && old(self).state == State::Starting && state == State::Started) ==> {
                &&& final(self).last_active == old(self).last_active
                &&& final(self).keep_online_until == old(self).keep_online_until
            },
            final(self).same_records(&*old(self)),
    {
        self.update_state_from(None, state, config, now)
    }

    /// Set new state, from a current state.
    ///
    /// With `from` given, the state only changes if it is currently `from`. When the state
    /// changes, the kill time is set for the new state; when the server comes online from
    /// starting, it counts as active and is kept online for the configured minimum time.
    ///
    /// Returns false if current state didn't match `from` or if nothing changed.
    pub fn update_state_from(&mut self, from: Option<State>, new: State, config: &Config, now: u64) -> (res: bool)
        requires
            old(self).wf(),
            now < TIME_LIMIT,
        ensures
            final(self).wf(),
            res == ((from is None || from == Some(old(self).state)) && old(self).state != new),
            (from is None || from == Some(old(self).state)) ==> final(self).state == new,
            !(from is None || from == Some(old(self).state)) ==> final(self).state == old(
                self,
            ).state,
            res ==> final(self).kill_at == spec_kill_at(new, config, now),
            !res ==> final(self).kill_at == old(self).kill_at,
            (res && old(self).state == State::Starting && new == State::Started) ==> {
                &&& final(self).last_active == Some(now)
                &&& final(self).keep_online_until == spec_keep_online_until(
                    Some(config.time.min_online_time),
                    now,
                )
            },
            !(res && old(self).state == State::Starting && new == State::Started) ==> {
                &&& final(self).last_active == old(self).last_active
                &&& final(self).keep_online_until == old(self).keep_online_until
            },
            final(self).same_records(&*old(self)),
    {
        let old_state = self.state;
        match from {
            Some(from) => {
                if old_state != from {
                    return false;
                }
            },
            None => {},
        }
        if old_state == new {
            return false;
        }
        self.kill_at = if new == State::Starting && config.server.start_timeout > 0 {
            Some(now + config.server.start_timeout as u64 * 1000)
        } else if new == State::Stopping && config.server.stop_timeout > 0 {
            Some(now + config.server.stop_timeout as u64 * 1000)
        } else {
            None
        };
        self.state = new;
        if old_state == State::Starting && new == State::Started {
            self.update_last_active(now);
            self.keep_online_for(Some(config.time.min_online_time), now);
        }
        true
    }

    /// Update status as obtained from the server.
    ///
    /// A stopped or starting server comes online when a status is obtained; an online server
    /// goes offline when none is. A status with players online counts as activity, and is
    /// kept as last known status.
    pub fn update_status(&mut self, config: &Config, status: Option<ServerStatus>, now: u64)
        requires
            old(self).wf(),
            now < TIME_LIMIT,
        ensures
            final(self).wf(),
            final(self).state == spec_status_state(old(self).state, status is Some),
            old(self).state == State::Stopping ==> final(self).state == State::Stopping
                && final(self).kill_at == old(self).kill_at,
            final(self).state == State::Started && old(self).state != State::Started ==> status is Some
                && (old(self).state == State::Stopped || old(self).state == State::Starting),
            final(self).state != old(self).state ==> final(self).kill_at is None,
            final(self).state == old(self).state ==> final(self).kill_at == old(self).kill_at,
            final(self).last_active == if (old(self).state == State::Starting && status is Some)
                || (status matches Some(s) && s.players.online > 0) {
                Some(now)
            } else {
                old(self).last_active
            },
            final(self).keep_online_until == if old(self).state == State::Starting && status is Some {
                spec_keep_online_until(Some(config.time.min_online_time), now)
            } else {
                old(self).keep_online_until
            },
            final(self).status == match status {
                Some(s) => Some(s),
                None => old(self).status,
            },
            final(self).pid == old(self).pid,
            final(self).banned_ips == old(self).banned_ips,
            final(self).whitelist == old(self).whitelist,
            final(self).rcon_last_stop == old(self).rcon_last_stop,
    {
        let state = self.state;
        match &status {
            Some(_) => {
                if state == State::Stopped || state == State::Starting {
                    self.update_state(State::Started, config, now);
                }
            },
            None => {
                if state == State::Started {
                    self.update_state(State::Stopped, config, now);
                }
            },
        }
        match status {
            Some(status) => {
                if status.players.online > 0 {
                    self.update_last_active(now);
                }
                self.status = Some(status);
            },
            None => {},
        }
    }

    /// Try to start the server: only a stopped server moves to starting.
    ///
    /// Returns whether it did; the caller then spawns the server process.
    pub fn start(&mut self, config: &Config, now: u64) -> (res: bool)
        requires
            old(self).wf(),
            now < TIME_LIMIT,
        ensures
            final(self).wf(),
            res == (old(self).state == State::Stopped),
            res ==> final(self).state == State::Starting && final(self).kill_at == spec_kill_at(
                State::Starting,
                config,
                now,
            ),
            !res ==> final(self).state == old(self).state && final(self).kill_at == old(
                self,
            ).kill_at,
            final(self).last_active == old(self).last_active,
            final(self).keep_online_until == old(self).keep_online_until,
            final(self).same_records(&*old(self)),
    {
        self.update_state_from(Some(State::Stopped), State::Starting, config, now)
    }

    /// Record that the server process was sent a stop signal: a starting or online server is
    /// now stopping.
    pub fn mark_stop_signal_sent(&mut self, config: &Config, now: u64)
        requires
            old(self).wf(),
            now < TIME_LIMIT,
        ensures
            final(self).wf(),
            final(self).state == if old(self).state == State::Starting || old(self).state
                == State::Started {
                State::Stopping
            } else {
                old(self).state
            },
            final(self).same_records(&*old(self)),
    {
        self.update_state_from(Some(State::Starting), State::Stopping, config, now);
        self.update_state_from(Some(State::Started), State::Stopping, config, now);
    }

    /// Record that the server process was frozen: a starting or online server is now
    /// stopped.
    pub fn mark_frozen(&mut self, config: &Config, now: u64)
        requires
            old(self).wf(),
            now < TIME_LIMIT,
        ensures
            final(self).wf(),
            final(self).state == if old(self).state == State::Starting || old(self).state
                == State::Started {
                State::Stopped
            } else {
                old(self).state
            },
            final(self).same_records(&*old(self)),
    {
        self.update_state_from(Some(State::Starting), State::Stopped, config, now);
        self.update_state_from(Some(State::Started), State::Stopped, config, now);
    }

    /// Record that the server process was unfrozen: a stopping or stopped server is now
    /// starting.
    pub fn mark_unfrozen(&mut self, config: &Config, now: u64)
        requires
            old(self).wf(),
            now < TIME_LIMIT,
        ensures
            final(self).wf(),
            final(self).state == if old(self).state == State::Stopping || old(self).state
                == State::Stopped {
                State::Starting
            } else {
                old(self).state
            },
            final(self).same_records(&*old(self)),
    {
        self.update_state_from(Some(State::Stopping), State::Starting, config, now);
        self.update_state_from(Some(State::Stopped), State::Starting, config, now);
    }

    /// Whether RCON has cooled down since the server was last stopped through it.
    pub fn rcon_cooled_down(&self, now: u64) -> (res: bool)
        ensures
            res == match self.rcon_last_stop {
                Some(at) => elapsed(at, now) >= RCON_COOLDOWN,
                None => true,
            },
    {
        match self.rcon_last_stop {
            Some(at) => {
                let passed = if now >= at {
                    now - at
                } else {
                    0
                };
                passed >= RCON_COOLDOWN
            },
            None => true,
        }
    }

    /// Record that the server process ended as `exit`: its PID is forgotten.
    ///
    /// Returns whether it crashed, judged on the state it ended in; the server is to be
    /// started again if it crashed and waking on crash is configured.
    pub fn process_exited(&mut self, exit: ProcessExit) -> (crashed: bool)
        ensures
            crashed == spec_exit_is_crash(exit, old(self).state),
            final(self).pid is None,
            *final(self) == (Server { pid: None, ..*old(self) }),
    {
        let crashed = exit_is_crash(exit, self.state);
        self.pid = None;
        crashed
    }

    /// Record that the server process is gone, after it exited (crashed or not): the server
    /// is stopped.
    ///
    /// Returns whether to start it again: it crashed and waking on crash is configured.
    pub fn process_stopped(&mut self, config: &Config, crashed: bool, now: u64) -> (restart: bool)
        requires
            old(self).wf(),
            now < TIME_LIMIT,
        ensures
            final(self).wf(),
            restart == (crashed && config.server.wake_on_crash),
            final(self).state == State::Stopped,
            old(self).state != State::Stopped ==> final(self).kill_at is None,
            old(self).state == State::Stopped ==> final(self).kill_at == old(self).kill_at,
            final(self).last_active == old(self).last_active,
            final(self).keep_online_until == old(self).keep_online_until,
            final(self).same_records(&*old(self)),
    {
        self.update_state(State::Stopped, config, now);
        crashed && config.server.wake_on_crash
    }

    /// Decide how to stop the server at `now`: through RCON when it is allowed and was not
    /// tried in vain yet, else with a signal to the process if its PID is known, else not at
    /// all.
    pub fn stop_step(&self, config: &Config, now: u64, rcon_failed: bool) -> (res: StopStep)
        ensures
            res == if !rcon_failed && self.state == State::Started && config.rcon.enabled && match self.rcon_last_stop {
                Some(at) => elapsed(at, now) >= RCON_COOLDOWN,
                None => true,
            } {
                StopStep::Rcon
            } else {
                match self.pid {
                    Some(pid) => StopStep::Signal(pid),
                    None => StopStep::GiveUp,
                }
            },
    {
        if !rcon_failed && self.rcon_stop_allowed(config, now) {
            return StopStep::Rcon;
        }
        match self.pid {
            Some(pid) => StopStep::Signal(pid),
            None => StopStep::GiveUp,
        }
    }

    /// Whether to try stopping the server through RCON at `now`: it is online, RCON is
    /// enabled and has cooled down since its last stop.
    pub fn rcon_stop_allowed(&self, config: &Config, now: u64) -> (res: bool)
        ensures
            res == (self.state == State::Started && config.rcon.enabled && match self.rcon_last_stop {
                Some(at) => elapsed(at, now) >= RCON_COOLDOWN,
                None => true,
            }),
    {
        self.state == State::Started && config.rcon.enabled && self.rcon_cooled_down(now)
    }

    /// Record that the server was stopped through RCON at `now`: it is now stopping.
    pub fn mark_rcon_stopped(&mut self, config: &Config, now: u64)
        requires
            old(self).wf(),
            now < TIME_LIMIT,
        ensures
            final(self).wf(),
            final(self).rcon_last_stop == Some(now),
            final(self).state == State::Stopping,
            old(self).state != State::Stopping ==> final(self).kill_at == spec_kill_at(
                State::Stopping,
                config,
                now,
            ),
            final(self).pid == old(self).pid,
            final(self).status == old(self).status,
    {
        self.rcon_last_stop = Some(now);
        self.update_state(State::Stopping, config, now);
    }

    /// Decide whether the server should sleep.
    ///
    /// Always returns false if it is currently not online.
    pub fn should_sleep(&self, config: &Config, now: u64) -> (res: bool)
        ensures
            res == self.spec_should_sleep(config, now),
            res ==> self.state == State::Started,
            res ==> (self.last_active matches Some(since) && (config.time.sleep_after == 0 || (since
                <= now && now - since >= config.time.sleep_after as int * 1000))),
    {
        if self.state != State::Started {
            return false;
        }
        let players_online = match &self.status {
            Some(status) => status.players.online > 0,
            None => false,
        };
        if players_online {
            return false;
        }
        let keep_online = match self.keep_online_until {
            Some(until) => until >= now,
            None => false,
        };
        if keep_online {
            return false;
        }
        match self.last_active {
            Some(since) => {
                let idle = if now >= since {
                    now - since
                } else {
                    0
                };
                idle >= config.time.sleep_after as u64 * 1000
            },
            None => false,
        }
    }

    /// Decide whether to force kill the server process.
    pub fn should_kill(&self, now: u64) -> (res: bool)
        ensures
            res == self.spec_should_kill(now),
    {
        match self.kill_at {
            Some(at) => at <= now,
            None => false,
        }
    }

    /// Read last known server status.
    pub fn status(&self) -> (res: &Option<ServerStatus>)
        ensures
            *res == self.status,
    {
        &self.status
    }

    /// Update the last active time.
    pub fn update_last_active(&mut self, now: u64)
        ensures
            final(self).last_active == Some(now),
            final(self).state == old(self).state,
            final(self).kill_at == old(self).kill_at,
            final(self).keep_online_until == old(self).keep_online_until,
            final(self).same_records(&*old(self)),
    {
        self.last_active = Some(now);
    }

    /// Force the server to be online for the given number of seconds.
    pub fn keep_online_for(&mut self, duration: Option<u32>, now: u64)
        requires
            now < TIME_LIMIT,
        ensures
            final(self).keep_online_until == spec_keep_online_until(duration, now),
            final(self).state == old(self).state,
            final(self).kill_at == old(self).kill_at,
            final(self).last_active == old(self).last_active,
            final(self).same_records(&*old(self)),
    {
        self.keep_online_until = match duration {
            Some(d) => if d > 0 {
                Some(now + d as u64 * 1000)
            } else {
                None
            },
            None => None,
        };
    }

    /// Check whether the given IP is banned, by the latest known `banned-ips.json`.
    pub fn is_banned_ip(&self, ip: &IpAddress) -> (res: bool)
        ensures
            res == self.banned_ips.entry(*ip) is Some,
    {
        self.banned_ips.is_banned(ip)
    }

    /// Get user ban entry.
    pub fn ban_entry(&self, ip: &IpAddress) -> (res: Option<BannedIp>)
        ensures
            res == self.banned_ips.entry(*ip),
    {
        self.banned_ips.get(ip)
    }

    /// Check whether the given username is whitelisted.
    ///
    /// Returns `true` if no whitelist is currently used.
    pub fn is_whitelisted(&self, username: &str) -> (res: bool)
        ensures
            res == match self.whitelist {
                Some(w) => w.spec_is_whitelisted(username@),
                None => true,
            },
    {
        match &self.whitelist {
            Some(w) => w.is_whitelisted(username),
            None => true,
        }
    }

    /// Update the list of banned IPs.
    pub fn set_banned_ips(&mut self, ips: BannedIps)
        ensures
            final(self).banned_ips == ips,
            final(self).state == old(self).state,
            final(self).kill_at == old(self).kill_at,
            final(self).whitelist == old(self).whitelist,
    {
        self.banned_ips = ips;
    }

    /// Update the whitelist.
    pub fn set_whitelist(&mut self, whitelist: Option<Whitelist>)
        ensures
            final(self).whitelist == whitelist,
            final(self).state == old(self).state,
            final(self).kill_at == old(self).kill_at,
            final(self).banned_ips == old(self).banned_ips,
    {
        self.whitelist = whitelist;
    }
}

impl Default for Server {
    fn default() -> (res: Self)
        ensures
            res.wf(),
            res.state == State::Stopped,
            res.pid is None,
            res.status is None,
            res.last_active is None,
            res.keep_online_until is None,
            res.kill_at is None,
            res.banned_ips.ips@.len() == 0,
            res.whitelist is None,
            res.rcon_last_stop is None,
    {
        Server {
            state: State::Stopped,
            pid: None,
            status: None,
            last_active: None,
            keep_online_until: None,
            kill_at: None,
            banned_ips: BannedIps::default(),
            whitelist: None,
            rcon_last_stop: None,
        }
    }
}

/// A server that is not starting or stopping is never force killed on a timeout.
pub proof fn lemma_kill_only_while_changing(server: Server, now: u64)
    requires
        server.wf(),
        server.spec_should_kill(now),
    ensures
        server.state == State::Starting || server.state == State::Stopping,
{
}

/// A server that came online is not put to sleep before its minimum online time has passed.
///
/// `server` is the state right after it changed from starting to started at `started`
/// (as `update_state_from` and `update_status` leave it); a nonzero minimum online time keeps
/// it awake up to and including `started` plus that time.
pub proof fn lemma_min_online_time_keeps_awake(
    server: Server,
    config: Config,
    started: u64,
    now: u64,
)
    requires
        started < TIME_LIMIT,
        config.time.min_online_time > 0,
        server.keep_online_until == spec_keep_online_until(Some(config.time.min_online_time), started),
        now <= secs_after(started, config.time.min_online_time),
    ensures
        !server.spec_should_sleep(&config, now),
{
}

/// The server sleeps only while online, nobody is playing by the last known status, it is
/// not kept online, and its last activity lies at least `sleep_after` seconds back: a server
/// active less than `sleep_after` seconds ago never sleeps.
pub proof fn lemma_sleep_only_idle(server: Server, config: Config, now: u64)
    requires
        server.spec_should_sleep(&config, now),
    ensures
        server.state == State::Started,
        server.status matches Some(status) ==> status.players.online == 0,
        server.keep_online_until matches Some(until) ==> until < now,
        (server.last_active matches Some(since) && (config.time.sleep_after == 0 || (since <= now
            && now - since >= config.time.sleep_after as int * 1000))),
{
}

/// A status poll brings only a stopped or starting server online, and takes only an online
/// server offline: a stopping server stays stopping whatever the poll gives.
pub proof fn lemma_status_moves_only_online_offline(state: State, online: bool)
    ensures
        state == State::Stopping ==> spec_status_state(state, online) == State::Stopping,
        spec_status_state(state, online) == State::Started && state != State::Started ==> online
            && (state == State::Stopped || state == State::Starting),
        spec_status_state(state, online) == State::Stopped && state != State::Stopped ==> !online
            && state == State::Started,
        spec_status_state(state, online) != state ==> spec_status_state(state, online)
            == State::Started || spec_status_state(state, online) == State::Stopped,
{
}

/// The words a command line splits into as a POSIX shell reads it, or `None` if it is
/// malformed (an unclosed quote, a trailing backslash).
pub uninterp spec fn shell_words(command: Seq<char>) -> Option<Seq<Seq<char>>>;

/// Split a command line into words.
///
/// Calls `shlex::split`. Claimed: the result is the named split of the command.
#[verifier::external_body]
fn split_command(command: &str) -> (res: Option<Vec<String>>)
    ensures
        match shell_words(command@) {
            Some(words) => res matches Some(v) && texts(v@) == words,
            None => res is None,
        },
{
    shlex::split(command)
}

/// A program to run, with its arguments.
#[derive(Debug)]
pub struct ServerCommand {
    /// The program.
    pub program: String,
    /// Its arguments.
    pub args: Vec<String>,
}

/// The program and arguments given by the words of a command line: the first word is the
/// program.
pub open spec fn spec_command(words: Option<Seq<Seq<char>>>) -> Option<(Seq<char>, Seq<Seq<char>>)> {
    match words {
        Some(w) => if w.len() > 0 {
            Some((w[0], w.drop_first()))
        } else {
            None
        },
        None => None,
    }
}

/// Take the program and its arguments from the words of a command line; `None` if the
/// command was malformed or empty.
pub fn command_from_words(words: Option<Vec<String>>) -> (res: Option<ServerCommand>)
    ensures
        match spec_command(
            match words {
                Some(v) => Some(texts(v@)),
                None => None,
            },
        ) {
            Some((program, args)) => res matches Some(c) && c.program@ == program && texts(c.args@) == args,
            None => res is None,
        },
{
    let words = match words {
        Some(w) => w,
        None => {
            return None;
        },
    };
    if words.len() == 0 {
        return None;
    }
    let ghost all = texts(words@);
    let program = words[0].clone();
    let mut args: Vec<String> = Vec::new();
    let mut i: usize = 1;
    while i < words.len()
        invariant
            1 <= i <= words@.len(),
            all == texts(words@),
            texts(args@) == all.subrange(1, i as int),
        decreases words.len() - i,
    {
        let ghost before = args@;
        args.push(words[i].clone());
        proof {
            assert(texts(args@) =~= texts(before).push(words@[i as int]@));
            assert(all.subrange(1, i + 1) =~= all.subrange(1, i as int).push(all[i as int]));
        }
        i = i + 1;
    }
    proof {
        assert(all.subrange(1, i as int) =~= all.drop_first());
    }
    Some(ServerCommand { program, args })
}

/// The server start command: the configured command line split as a shell would.
///
/// Returns `None` if the command is malformed or empty, where starting the server fails.
pub fn server_command(config: &Config) -> (res: Option<ServerCommand>)
    ensures
        match spec_command(shell_words(config.server.command@)) {
            Some((program, args)) => res matches Some(c) && c.program@ == program && texts(c.args@) == args,
            None => res is None,
        },
{
    command_from_words(split_command(config.server.command.as_str()))
}

} // verus!
