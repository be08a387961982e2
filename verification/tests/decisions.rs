use lazymc::action::{
    generate_random_password, prepare_rcon, server_properties_plan, PropertiesPlan, RconError,
    RCON_PASSWORD_LENGTH,
};
use lazymc::config::{
    Advanced, Config, ConfigConfig, Join, JoinHold, JoinKick, Lockout, Method, Motd, Public, Rcon,
    Server as ConfigServer, Time,
};
use lazymc::join::{hold_applies, hold_step, occupy_step, HoldStep, MethodResult, OccupyStep};
use lazymc::mc::ban::{BannedIp, BannedIps};
use lazymc::mc::whitelist::{Whitelist, WhitelistUser};
use lazymc::net::{IpAddress, SocketAddress};
use lazymc::proto::client::{ClientInfo, ClientState};
use lazymc::server::{Server, State};
use lazymc::service::{route_handshake, Route};
use lazymc::status::{
    login_start, needs_disk_favicon, server_status, status_packet, Description, LoginDecision,
    OnlinePlayers, ServerStatus, ServerVersion, StatusPacket, WHITELIST_MESSAGE,
};

fn config() -> Config {
    Config {
        public: Public::default(),
        server: ConfigServer {
            directory: Some("/srv/mc".to_string()),
            command: "java -jar server.jar".to_string(),
            address: SocketAddress { ip: IpAddress::V4(0x7f000001), port: 25566 },
            wake_on_start: false,
            wake_on_crash: false,
            start_timeout: 300,
            stop_timeout: 150,
        },
        time: Time::default(),
        motd: Motd::default(),
        join: Join::default(),
        join_kick: JoinKick::default(),
        join_hold: JoinHold::default(),
        lockout: Lockout::default(),
        rcon: Rcon::default(),
        advanced: Advanced::default(),
        config: ConfigConfig::default(),
    }
}

fn banned(ip: u32, reason: &str) -> BannedIps {
    BannedIps::from_entries(vec![BannedIp {
        ip: IpAddress::V4(ip),
        created: String::new(),
        source: String::new(),
        expires: "forever".to_string(),
        reason: reason.to_string(),
    }])
}

fn started(online: u32) -> Server {
    let config = config();
    let mut server = Server::default();
    server.start(&config, 0);
    server.update_status(
        &config,
        Some(ServerStatus {
            version: ServerVersion { name: "1.19".to_string(), protocol: 759 },
            description: Description::Server("{\"text\":\"real\"}".to_string()),
            players: OnlinePlayers { online, max: 10, sample: Vec::new() },
            favicon: Some("data:image/png;base64,AAAA".to_string()),
        }),
        1,
    );
    server
}

#[test]
fn status_packets_are_dispatched_by_state() {
    assert_eq!(status_packet(ClientState::Status, 0x01), StatusPacket::Ping);
    assert_eq!(status_packet(ClientState::Status, 0x00), StatusPacket::Status);
    assert_eq!(status_packet(ClientState::Login, 0x00), StatusPacket::LoginStart);
    assert_eq!(status_packet(ClientState::Login, 0x01), StatusPacket::Unhandled);
    assert_eq!(status_packet(ClientState::Handshake, 0x00), StatusPacket::Unhandled);
}

#[test]
fn lockout_kicks_everybody() {
    let mut config = config();
    config.lockout.enabled = true;
    let server = Server::default();
    match login_start(&config, &server, &IpAddress::V4(1), &Some("alice".to_string())) {
        LoginDecision::Kick(msg) => assert_eq!(msg, "Server is closed §7☠§r\n\nPlease come back another time."),
        LoginDecision::Start => panic!("expected kick"),
    }
}

#[test]
fn banned_ip_is_kicked_with_reason() {
    let config = config();
    let mut server = Server::default();
    server.set_banned_ips(banned(5, "griefing"));
    match login_start(&config, &server, &IpAddress::V4(5), &None) {
        LoginDecision::Kick(msg) => {
            assert_eq!(msg, "Your IP address is banned from this server.\nReason: griefing")
        }
        LoginDecision::Start => panic!("expected kick"),
    }
    server.set_banned_ips(banned(5, ""));
    match login_start(&config, &server, &IpAddress::V4(5), &None) {
        LoginDecision::Kick(msg) => assert_eq!(
            msg,
            "Your IP address is banned from this server.\nReason: Banned by an operator."
        ),
        LoginDecision::Start => panic!("expected kick"),
    }
    assert!(matches!(
        login_start(&config, &server, &IpAddress::V4(6), &None),
        LoginDecision::Start
    ));
}

#[test]
fn whitelist_decides_who_may_wake_the_server() {
    let config = config();
    let mut server = Server::default();
    server.set_whitelist(Some(Whitelist::from_users(
        vec![WhitelistUser { username: "alice".to_string(), uuid: None }],
        Vec::new(),
    )));
    assert!(matches!(
        login_start(&config, &server, &IpAddress::V4(1), &Some("alice".to_string())),
        LoginDecision::Start
    ));
    match login_start(&config, &server, &IpAddress::V4(1), &Some("mallory".to_string())) {
        LoginDecision::Kick(msg) => assert_eq!(msg, WHITELIST_MESSAGE),
        LoginDecision::Start => panic!("expected kick"),
    }
    // Without a known username nobody is checked against the whitelist.
    assert!(matches!(login_start(&config, &server, &IpAddress::V4(1), &None), LoginDecision::Start));
}

#[test]
fn handshake_routing() {
    let config = config();
    let sleeping = Server::default();
    let online = started(0);
    let ip = IpAddress::V4(1);
    assert_eq!(route_handshake(&online, &config, &ip, false, 2), Route::Proxy(ClientState::Login));
    assert_eq!(route_handshake(&online, &config, &ip, false, 1), Route::Proxy(ClientState::Status));
    assert_eq!(route_handshake(&sleeping, &config, &ip, false, 1), Route::Status(ClientState::Status));
    assert_eq!(route_handshake(&online, &config, &ip, false, 7), Route::UnknownState);
    let mut locked = config;
    locked.lockout.enabled = true;
    assert_eq!(route_handshake(&online, &locked, &ip, false, 2), Route::Status(ClientState::Login));
}

#[test]
fn banned_handshake_routing() {
    let config = config();
    let mut online = started(0);
    online.set_banned_ips(banned(1, "x"));
    let ip = IpAddress::V4(1);
    assert_eq!(route_handshake(&online, &config, &ip, true, 2), Route::Drop);
    assert_eq!(route_handshake(&online, &config, &ip, false, 2), Route::Status(ClientState::Login));
}

#[test]
fn join_methods_in_order() {
    let methods = vec![Method::Hold, Method::Kick];
    assert_eq!(occupy_step(&methods, 0, None), OccupyStep::Invoke(Method::Hold));
    assert_eq!(occupy_step(&methods, 1, Some(MethodResult::Continue)), OccupyStep::Invoke(Method::Kick));
    assert_eq!(occupy_step(&methods, 1, Some(MethodResult::Consumed)), OccupyStep::Done);
    assert_eq!(occupy_step(&methods, 2, Some(MethodResult::Continue)), OccupyStep::Close);
    assert_eq!(occupy_step(&Vec::new(), 0, None), OccupyStep::Close);
}

#[test]
fn hold_follows_server_state() {
    let config = config();
    let mut server = Server::default();
    assert!(!hold_applies(&server));
    server.start(&config, 0);
    assert!(hold_applies(&server));
    assert_eq!(hold_step(State::Starting), HoldStep::Wait);
    assert_eq!(hold_step(State::Started), HoldStep::Relay);
    assert_eq!(hold_step(State::Stopping), HoldStep::Release);
    assert_eq!(hold_step(State::Stopped), HoldStep::Release);
}

#[test]
fn status_of_sleeping_server() {
    let config = config();
    let server = Server::default();
    let info = ClientInfo::empty();
    assert!(needs_disk_favicon(&info, &server, &config));
    let status = server_status(&info, &server, &config, Some("icon".to_string()));
    assert_eq!(status.version.name, "1.20.3");
    assert_eq!(status.version.protocol, 765);
    assert_eq!(status.players.online, 0);
    assert_eq!(status.players.max, 0);
    match status.description {
        Description::Text(t) => assert_eq!(t, "☠ Server is sleeping\n§2☻ Join to start it up"),
        Description::Server(_) => panic!("expected text"),
    }
    assert_eq!(status.favicon, Some("icon".to_string()));
}

#[test]
fn status_of_online_server_is_passed_through() {
    let config = config();
    let server = started(3);
    let info = ClientInfo::empty();
    assert!(!needs_disk_favicon(&info, &server, &config));
    let status = server_status(&info, &server, &config, None);
    assert_eq!(status.players.online, 3);
    assert_eq!(status.version.protocol, 759);
}

#[test]
fn status_of_stopping_server_uses_last_known_version() {
    let config = config();
    let mut server = started(0);
    server.mark_stop_signal_sent(&config, 5);
    let mut info = ClientInfo::empty();
    info.protocol = Some(3);
    let status = server_status(&info, &server, &config, Some("icon".to_string()));
    assert_eq!(status.version.protocol, 759);
    assert_eq!(status.players.max, 10);
    assert_eq!(status.players.online, 0);
    match status.description {
        Description::Text(t) => assert_eq!(t, "☠ Server going to sleep...\n⌛ Please wait..."),
        Description::Server(_) => panic!("expected text"),
    }
    // Clients before protocol 4 get no favicon.
    assert_eq!(status.favicon, None);
}

#[test]
fn rcon_preparation_checks_configuration() {
    let mut config = config();
    config.rcon.enabled = false;
    assert_eq!(prepare_rcon(&mut config, true), Err(RconError::WindowsNeedsRcon));
    assert_eq!(prepare_rcon(&mut config, false), Ok(()));
    config.rcon.enabled = true;
    config.rcon.port = 25566;
    assert_eq!(prepare_rcon(&mut config, false), Err(RconError::SamePort));
    config.rcon.port = 25575;
    config.rcon.randomize_password = false;
    config.rcon.password = "  ".to_string();
    assert_eq!(prepare_rcon(&mut config, false), Err(RconError::EmptyPassword));
    config.rcon.password = "secret".to_string();
    assert_eq!(prepare_rcon(&mut config, false), Ok(()));
    assert_eq!(config.rcon.password, "secret");
    config.rcon.randomize_password = true;
    config.advanced.rewrite_server_properties = false;
    assert_eq!(prepare_rcon(&mut config, false), Err(RconError::RewriteDisabled));
    assert_eq!(config.rcon.password, "secret");
    config.advanced.rewrite_server_properties = true;
    assert_eq!(prepare_rcon(&mut config, false), Ok(()));
    assert_eq!(config.rcon.password.len(), RCON_PASSWORD_LENGTH);
    assert!(config.rcon.password.chars().all(|c| c.is_ascii_alphanumeric()));
}

#[test]
fn rcon_error_messages_and_hints() {
    assert_eq!(RconError::SamePort.message(), "RCON port cannot be the same as the server");
    assert_eq!(
        RconError::RewriteDisabled.message(),
        "You must enable server.properties rewrite to use RCON password randomization"
    );
    let hints = RconError::EmptyPassword.hints();
    assert_eq!(
        hints.info,
        vec![
            "change 'rcon.randomize_password' to 'true' in the config file".to_string(),
            "or change 'rcon.password' in the config file".to_string(),
        ]
    );
    assert!(hints.verbose && hints.help && !hints.config);
}

#[test]
fn random_passwords_differ() {
    let a = generate_random_password();
    let b = generate_random_password();
    assert_eq!(a.len(), 32);
    assert!(a.chars().all(|c| c.is_ascii_alphanumeric()));
    assert_ne!(a, b);
}

#[test]
fn server_properties_plan_lists_changes() {
    let mut config = config();
    match server_properties_plan(&config) {
        PropertiesPlan::Rewrite(dir, changes) => {
            assert_eq!(dir, "/srv/mc");
            let expected: Vec<(String, String)> = [
                ("server-ip", "127.0.0.1"),
                ("server-port", "25566"),
                ("enable-status", "true"),
                ("query.port", "25566"),
                ("rcon.port", "25575"),
                ("rcon.password", ""),
                ("enable-rcon", "true"),
            ]
            .iter()
            .map(|(k, v)| (k.to_string(), v.to_string()))
            .collect();
            assert_eq!(changes, expected);
        }
        _ => panic!("expected rewrite"),
    }
    config.server.address = SocketAddress { ip: IpAddress::V4(0x0a000001), port: 7 };
    config.rcon.enabled = false;
    match server_properties_plan(&config) {
        PropertiesPlan::Rewrite(_, changes) => {
            assert_eq!(changes.len(), 5);
            assert_eq!(changes[0], ("server-ip".to_string(), "10.0.0.1".to_string()));
            assert_eq!(changes[1], ("server-port".to_string(), "7".to_string()));
            assert_eq!(changes[4], ("prevent-proxy-connections".to_string(), "false".to_string()));
        }
        _ => panic!("expected rewrite"),
    }
    config.server.directory = None;
    assert!(matches!(server_properties_plan(&config), PropertiesPlan::NoDirectory));
    config.advanced.rewrite_server_properties = false;
    assert!(matches!(server_properties_plan(&config), PropertiesPlan::Disabled));
}
