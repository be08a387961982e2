use lazymc::config::{
    Advanced, Config, ConfigConfig, Join, JoinHold, JoinKick, Lockout, Motd, Public, Rcon,
    Server as ConfigServer, Time,
};
use lazymc::net::{IpAddress, SocketAddress};
use lazymc::server::{exit_is_crash, is_allowed_exit_code, ProcessExit, Server, State, StopStep};
use lazymc::status::{Description, OnlinePlayers, ServerStatus, ServerVersion};

fn config() -> Config {
    Config {
        public: Public::default(),
        server: ConfigServer {
            directory: Some(".".to_string()),
            command: "java -jar server.jar".to_string(),
            address: SocketAddress { ip: IpAddress::V4(0x7f000001), port: 25566 },
            wake_on_start: false,
            wake_on_crash: false,
            start_timeout: 300,
            stop_timeout: 150,
        },
        time: Time::default(),
        motd: Motd::default(),
        join: Join::default(),
        join_kick: JoinKick::default(),
        join_hold: JoinHold::default(),
        lockout: Lockout::default(),
        rcon: Rcon::default(),
        advanced: Advanced::default(),
        config: ConfigConfig::default(),
    }
}

fn status(online: u32) -> ServerStatus {
    ServerStatus {
        version: ServerVersion { name: "1.20.3".to_string(), protocol: 765 },
        description: Description::Text("hello".to_string()),
        players: OnlinePlayers { online, max: 20, sample: Vec::new() },
        favicon: None,
    }
}

#[test]
fn state_u8_round_trips() {
    assert_eq!(State::from_u8(0), State::Stopped);
    assert_eq!(State::from_u8(1), State::Starting);
    assert_eq!(State::from_u8(2), State::Started);
    assert_eq!(State::from_u8(3), State::Stopping);
    for s in [State::Stopped, State::Starting, State::Started, State::Stopping] {
        assert_eq!(State::from_u8(s.to_u8()), s);
    }
}

#[test]
fn start_only_from_stopped_and_sets_kill_time() {
    let config = config();
    let mut server = Server::default();
    assert_eq!(server.state(), State::Stopped);
    assert!(server.start(&config, 1_000));
    assert_eq!(server.state(), State::Starting);
    assert_eq!(server.kill_at, Some(1_000 + 300_000));
    assert!(!server.start(&config, 2_000));
    assert_eq!(server.kill_at, Some(301_000));
}

#[test]
fn server_comes_online_with_status_and_is_kept_awake() {
    let config = config();
    let mut server = Server::default();
    server.start(&config, 0);
    server.update_status(&config, Some(status(0)), 10_000);
    assert_eq!(server.state(), State::Started);
    assert_eq!(server.kill_at, None);
    assert_eq!(server.last_active, Some(10_000));
    assert_eq!(server.keep_online_until, Some(70_000));
    // Kept online for the minimum time, then idle for sleep_after.
    assert!(!server.should_sleep(&config, 69_000));
    assert!(!server.should_sleep(&config, 70_000));
    assert!(server.should_sleep(&config, 70_001));
}

#[test]
fn players_keep_server_awake() {
    let config = config();
    let mut server = Server::default();
    server.start(&config, 0);
    server.update_status(&config, Some(status(2)), 1_000);
    assert!(!server.should_sleep(&config, 500_000));
    server.update_status(&config, Some(status(0)), 500_000);
    assert_eq!(server.last_active, Some(1_000));
    assert!(server.should_sleep(&config, 500_000));
}

#[test]
fn lost_status_takes_server_offline() {
    let config = config();
    let mut server = Server::default();
    server.start(&config, 0);
    server.update_status(&config, Some(status(0)), 1_000);
    server.update_status(&config, None, 2_000);
    assert_eq!(server.state(), State::Stopped);
    assert!(server.status().is_some());
    assert!(!server.should_sleep(&config, 1_000_000));
}

#[test]
fn stop_signal_and_kill_timeout() {
    let config = config();
    let mut server = Server::default();
    server.start(&config, 0);
    server.update_status(&config, Some(status(0)), 1_000);
    server.mark_stop_signal_sent(&config, 100_000);
    assert_eq!(server.state(), State::Stopping);
    assert_eq!(server.kill_at, Some(250_000));
    assert!(!server.should_kill(249_999));
    assert!(server.should_kill(250_000));
}

#[test]
fn freeze_and_unfreeze() {
    let config = config();
    let mut server = Server::default();
    server.start(&config, 0);
    server.mark_frozen(&config, 10);
    assert_eq!(server.state(), State::Stopped);
    server.mark_unfrozen(&config, 20);
    assert_eq!(server.state(), State::Starting);
    assert_eq!(server.kill_at, Some(300_020));
}

#[test]
fn rcon_cooldown() {
    let config = config();
    let mut server = Server::default();
    assert!(server.rcon_cooled_down(0));
    server.mark_rcon_stopped(&config, 1_000);
    assert_eq!(server.state(), State::Stopping);
    assert!(!server.rcon_cooled_down(15_999));
    assert!(server.rcon_cooled_down(16_000));
}

#[test]
fn update_state_from_only_matching_state() {
    let config = config();
    let mut server = Server::default();
    assert!(!server.update_state_from(Some(State::Started), State::Stopping, &config, 0));
    assert_eq!(server.state(), State::Stopped);
    assert!(server.update_state_from(Some(State::Stopped), State::Starting, &config, 0));
    assert!(!server.update_state(State::Starting, &config, 0));
}

#[test]
fn keep_online_for_duration() {
    let mut server = Server::default();
    server.keep_online_for(Some(10), 5_000);
    assert_eq!(server.keep_online_until, Some(15_000));
    server.keep_online_for(Some(0), 5_000);
    assert_eq!(server.keep_online_until, None);
    server.keep_online_for(None, 5_000);
    assert_eq!(server.keep_online_until, None);
}

#[test]
fn process_exit_crash_detection() {
    assert!(is_allowed_exit_code(130));
    assert!(is_allowed_exit_code(143));
    assert!(!is_allowed_exit_code(1));
    let ok = ProcessExit::Exited { success: true, code: Some(0) };
    let term = ProcessExit::Exited { success: false, code: Some(143) };
    let fail = ProcessExit::Exited { success: false, code: Some(1) };
    let signal = ProcessExit::Exited { success: false, code: None };
    assert!(!exit_is_crash(ok, State::Started));
    assert!(!exit_is_crash(term, State::Started));
    assert!(exit_is_crash(fail, State::Started));
    assert!(exit_is_crash(signal, State::Started));
    assert!(!exit_is_crash(fail, State::Stopping));
    assert!(!exit_is_crash(ProcessExit::WaitFailed, State::Started));
}

#[test]
fn server_command_is_split_like_a_shell() {
    let mut config = config();
    config.server.command = "java -Xmx1G -jar \"my server.jar\" nogui".to_string();
    let cmd = lazymc::server::server_command(&config).unwrap();
    assert_eq!(cmd.program, "java");
    assert_eq!(cmd.args, vec!["-Xmx1G", "-jar", "my server.jar", "nogui"]);
    config.server.command = "java \"unclosed".to_string();
    assert!(lazymc::server::server_command(&config).is_none());
    config.server.command = "   ".to_string();
    assert!(lazymc::server::server_command(&config).is_none());
}

#[test]
fn restart_only_after_crash_with_wake_on_crash() {
    let mut config = config();
    let mut server = Server::default();
    server.start(&config, 0);
    server.update_status(&config, Some(status(0)), 10);
    server.pid = Some(42);
    let crashed = server.process_exited(ProcessExit::Exited { success: false, code: Some(1) });
    assert!(crashed);
    assert_eq!(server.pid, None);
    assert!(!server.process_stopped(&config, crashed, 20));
    assert_eq!(server.state(), State::Stopped);
    config.server.wake_on_crash = true;
    assert!(server.process_stopped(&config, true, 30));
    assert!(!server.process_stopped(&config, false, 30));
}

#[test]
fn stop_tries_rcon_then_signal() {
    let config = config();
    let mut server = Server::default();
    assert_eq!(server.stop_step(&config, 0, false), StopStep::GiveUp);
    server.start(&config, 0);
    server.pid = Some(7);
    // Not online yet: no RCON.
    assert_eq!(server.stop_step(&config, 0, false), StopStep::Signal(7));
    server.update_status(&config, Some(status(0)), 10);
    assert_eq!(server.stop_step(&config, 20, false), StopStep::Rcon);
    assert_eq!(server.stop_step(&config, 20, true), StopStep::Signal(7));
    server.mark_rcon_stopped(&config, 100);
    server.update_status(&config, Some(status(0)), 200);
    assert_eq!(server.stop_step(&config, 1_000, false), StopStep::Signal(7));
}
