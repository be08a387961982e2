use lazymc::config::{
    option_pathbuf_dot, server_address_default, u32_150, u32_300, Advanced, ConfigVersionStatus,
    Join, JoinHold, JoinKick, Lockout, Method, Motd, Public, Rcon, Time,
};
use lazymc::mc::favicon::{encode_favicon, supports_favicon};
use lazymc::mc::uuid::{java_name_uuid_from_bytes, offline_player_uuid, player_uuid};
use lazymc::net::{IpAddress, SocketAddress};
use lazymc::proto::client::{ClientInfo, Handshake};
use lazymc::proxy::{header_bytes, local_proxy_header, stream_proxy_header, ProxyHeader};

const SIG: [u8; 12] = [0x0D, 0x0A, 0x0D, 0x0A, 0x00, 0x0D, 0x0A, 0x51, 0x55, 0x49, 0x54, 0x0A];

#[test]
fn proxy_header_not_none() {
    assert_eq!(ProxyHeader::Proxy.not_none(true), ProxyHeader::Proxy);
    assert_eq!(ProxyHeader::Proxy.not_none(false), ProxyHeader::Disabled);
    assert_eq!(ProxyHeader::Local.not_none(false), ProxyHeader::Disabled);
    assert_eq!(ProxyHeader::Disabled.not_none(true), ProxyHeader::Disabled);
}

#[test]
fn local_proxy_header_bytes() {
    let mut expected = SIG.to_vec();
    expected.extend([0x20, 0x01, 0x00, 0x00]);
    assert_eq!(local_proxy_header().unwrap(), expected);
}

#[test]
fn stream_proxy_header_v4() {
    let peer = SocketAddress { ip: IpAddress::V4(0xc0a80001), port: 50000 };
    let local = SocketAddress { ip: IpAddress::V4(0x7f000001), port: 25565 };
    let mut expected = SIG.to_vec();
    expected.extend([0x21, 0x11, 0x00, 12, 192, 168, 0, 1, 127, 0, 0, 1, 0xc3, 0x50, 0x63, 0xdd]);
    assert_eq!(stream_proxy_header(peer, local), expected);
    assert_eq!(header_bytes(ProxyHeader::Proxy, peer, local).unwrap(), expected);
    assert!(header_bytes(ProxyHeader::Disabled, peer, local).unwrap().is_empty());
}

#[test]
fn stream_proxy_header_v6() {
    let peer = SocketAddress { ip: IpAddress::V6(1), port: 1 };
    let local = SocketAddress { ip: IpAddress::V6(0x2001_0db8 << 96), port: 2 };
    let bytes = stream_proxy_header(peer, local);
    assert_eq!(bytes.len(), 12 + 4 + 36);
    assert_eq!(&bytes[12..16], &[0x21, 0x21, 0x00, 36]);
    assert_eq!(bytes[16 + 15], 1);
    assert_eq!(&bytes[32..36], &[0x20, 0x01, 0x0d, 0xb8]);
    assert_eq!(&bytes[48..52], &[0, 1, 0, 2]);
}

#[test]
fn favicon_data_url() {
    assert_eq!(encode_favicon(b"hi"), "data:image/png;base64,aGk=");
    assert_eq!(encode_favicon(&[0, 1, 2, 3, 255]), "data:image/png;base64,AAECA/8=");
    assert_eq!(encode_favicon(&[]), "data:image/png;base64,");
}

#[test]
fn favicon_support_by_protocol() {
    let mut info = ClientInfo::empty();
    assert!(supports_favicon(&info));
    info.protocol = Some(3);
    assert!(!supports_favicon(&info));
    info.protocol = Some(4);
    assert!(supports_favicon(&info));
    let mut from_handshake = ClientInfo::empty();
    from_handshake.handshake = Some(Handshake {
        protocol_version: 760,
        server_addr: "localhost".to_string(),
        server_port: 25565,
        next_state: 1,
    });
    assert_eq!(from_handshake.protocol(), Some(760));
}

#[test]
fn offline_player_uuid_matches_minecraft() {
    assert_eq!(
        offline_player_uuid("Notch"),
        vec![0xb5, 0x0a, 0xd3, 0x85, 0x82, 0x9d, 0x31, 0x41, 0xa2, 0x16, 0x7e, 0x7d, 0x75, 0x39, 0xba, 0x7f]
    );
    assert_eq!(player_uuid("OfflinePlayer:Notch"), offline_player_uuid("Notch"));
    assert_eq!(java_name_uuid_from_bytes(b"OfflinePlayer:Notch"), offline_player_uuid("Notch"));
    let digest = vec![0xffu8; 16];
    let uuid = lazymc::mc::uuid::name_uuid_from_digest(digest);
    assert_eq!(uuid[6], 0x3f);
    assert_eq!(uuid[8], 0xbf);
    assert_eq!(uuid[0], 0xff);
    let uuid = java_name_uuid_from_bytes(b"");
    assert_eq!(uuid[6] >> 4, 3);
    assert_eq!(uuid[8] >> 6, 2);
}

#[test]
fn config_defaults() {
    let public = Public::default();
    assert_eq!(public.address, SocketAddress { ip: IpAddress::V4(0), port: 25565 });
    assert_eq!(public.version, "1.20.3");
    assert_eq!(public.protocol, 765);
    assert_eq!(Time::default().sleep_after, 60);
    assert_eq!(Time::default().min_online_time, 60);
    assert!(!Motd::default().from_server);
    assert_eq!(Join::default().methods, vec![Method::Hold, Method::Kick]);
    assert_eq!(JoinHold::default().timeout, 25);
    assert!(JoinHold::default().hold());
    assert!(!JoinHold { timeout: 0 }.hold());
    assert!(!Lockout::default().enabled);
    assert!(JoinKick::default().starting.starts_with("Server is starting..."));
    let rcon = Rcon::default();
    assert!(rcon.enabled && rcon.randomize_password);
    assert_eq!(rcon.port, 25575);
    assert!(Advanced::default().rewrite_server_properties);
    assert_eq!(option_pathbuf_dot(), Some(".".to_string()));
    assert_eq!(server_address_default(), SocketAddress { ip: IpAddress::V4(0x7f000001), port: 25566 });
    assert_eq!(u32_300(), 300);
    assert_eq!(u32_150(), 300);
}

#[test]
fn config_version_status() {
    let mut config = lazymc::config::Config {
        public: Public::default(),
        server: lazymc::config::Server {
            directory: None,
            command: String::new(),
            address: server_address_default(),
            wake_on_start: false,
            wake_on_crash: false,
            start_timeout: 300,
            stop_timeout: 300,
        },
        time: Time::default(),
        motd: Motd::default(),
        join: Join::default(),
        join_kick: JoinKick::default(),
        join_hold: JoinHold::default(),
        lockout: Lockout::default(),
        rcon: Rcon::default(),
        advanced: Advanced::default(),
        config: lazymc::config::ConfigConfig::default(),
    };
    assert_eq!(config.version_status(), ConfigVersionStatus::Unknown);
    config.config.version = Some("0.2.0".to_string());
    assert_eq!(config.version_status(), ConfigVersionStatus::Current);
    config.config.version = Some("0.2.8".to_string());
    assert_eq!(config.version_status(), ConfigVersionStatus::Current);
    config.config.version = Some("0.1.5".to_string());
    assert_eq!(config.version_status(), ConfigVersionStatus::Outdated);
    assert_eq!(lazymc::config::status_of_comparison(Err(())), ConfigVersionStatus::Invalid);
    assert_eq!(lazymc::config::status_of_comparison(Ok(true)), ConfigVersionStatus::Current);
    assert_eq!(lazymc::config::status_of_comparison(Ok(false)), ConfigVersionStatus::Outdated);
}

#[test]
fn loopback_addresses() {
    assert!(IpAddress::localhost_v4().is_loopback());
    assert!(IpAddress::V4(0x7f_12_34_56).is_loopback());
    assert!(!IpAddress::V4(0x0a000001).is_loopback());
    assert!(IpAddress::V6(1).is_loopback());
    assert!(!IpAddress::V6(2).is_loopback());
}

#[test]
fn ip_address_text() {
    assert_eq!(IpAddress::V4(0x7f000001).to_text(), "127.0.0.1");
    assert_eq!(IpAddress::V4(0).to_text(), "0.0.0.0");
    assert_eq!(IpAddress::V4(0xffffffff).to_text(), "255.255.255.255");
    assert_eq!(IpAddress::V6(0).to_text(), "::");
    assert_eq!(IpAddress::V6(1).to_text(), "::1");
    assert_eq!(IpAddress::V6(0x2001_0db8_0000_0000_0000_0000_0000_0001).to_text(), "2001:db8::1");
    assert_eq!(IpAddress::V6(0x0000_0000_0000_0000_0000_ffff_0102_0304).to_text(), "::ffff:1.2.3.4");
    assert_eq!(IpAddress::V6(0x0001_0000_0000_0002_0000_0000_0000_0003).to_text(), "1:0:0:2::3");
    assert_eq!(IpAddress::V6(0x0001_0000_0000_0002_0000_0000_0003_0004).to_text(), "1::2:0:0:3:4");
    assert_eq!(IpAddress::V6(0x0001_0002_0003_0004_0005_0006_0007_0000).to_text(), "1:2:3:4:5:6:7:0");
    assert_eq!(IpAddress::V6(0xfe80_0000_0000_0000_abcd_0000_0000_0000).to_text(), "fe80::abcd:0:0:0");
}
