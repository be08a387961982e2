use lazymc::mc::ban::{BannedIp, BannedIps};
use lazymc::mc::whitelist::{OpUser, Whitelist, WhitelistUser};
use lazymc::net::IpAddress;
use lazymc::router::Router;

fn ban(ip: u32, reason: &str) -> BannedIp {
    BannedIp {
        ip: IpAddress::V4(ip),
        created: "2021-11-22 13:37:00 +0100".to_string(),
        source: "Server".to_string(),
        expires: "forever".to_string(),
        reason: reason.to_string(),
    }
}

#[test]
fn banned_ips_lookup() {
    let bans = BannedIps::from_entries(vec![ban(1, "a"), ban(2, "b")]);
    assert!(bans.is_banned(&IpAddress::V4(1)));
    assert!(bans.is_banned(&IpAddress::V4(2)));
    assert!(!bans.is_banned(&IpAddress::V4(3)));
    assert!(!bans.is_banned(&IpAddress::V6(1)));
    assert_eq!(bans.get(&IpAddress::V4(2)).unwrap().reason, "b");
    assert!(bans.get(&IpAddress::V4(3)).is_none());
}

#[test]
fn banned_ips_later_entry_wins() {
    let bans = BannedIps::from_entries(vec![ban(1, "first"), ban(2, "x"), ban(1, "second")]);
    assert_eq!(bans.ips.len(), 2);
    assert_eq!(bans.get(&IpAddress::V4(1)).unwrap().reason, "second");
}

#[test]
fn empty_ban_list() {
    let bans = BannedIps::new();
    assert!(!bans.is_banned(&IpAddress::V4(0)));
    assert!(BannedIps::default().ips.is_empty());
    assert!(ban(9, "").is_banned());
}

#[test]
fn whitelist_checks_whitelist_and_ops() {
    let whitelist = Whitelist::from_users(
        vec![WhitelistUser { username: "alice".to_string(), uuid: None }],
        vec![OpUser {
            username: "bob".to_string(),
            uuid: Some("0000".to_string()),
            level: Some(4),
            byapsses_player_limit: Some(false),
        }],
    );
    assert!(whitelist.is_whitelisted("alice"));
    assert!(whitelist.is_whitelisted("bob"));
    assert!(!whitelist.is_whitelisted("carol"));
    assert!(!whitelist.is_whitelisted("Alice"));
    assert!(!Whitelist::default().is_whitelisted("alice"));
}

#[test]
fn router_prefers_named_server_then_default() {
    let mut router: Router<u32> = Router::new();
    assert_eq!(router.get("a".to_string()), None);
    router.insert(None, 1);
    router.insert(Some("a".to_string()), 2);
    assert_eq!(router.get("a".to_string()), Some(&2));
    assert_eq!(router.get("b".to_string()), Some(&1));
    router.insert(Some("a".to_string()), 3);
    assert_eq!(router.get("a".to_string()), Some(&3));
    assert_eq!(router.data.len(), 2);
}

#[test]
fn router_without_default_drops_unknown_names() {
    let mut router: Router<u32> = Router::new();
    router.insert(Some("survival".to_string()), 7);
    assert_eq!(router.get("survival".to_string()), Some(&7));
    assert_eq!(router.get("creative".to_string()), None);
}
