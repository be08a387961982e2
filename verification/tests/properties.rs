use lazymc::mc::server_properties::{find_property, rewrite_contents};

fn changes(list: &[(&str, &str)]) -> Vec<(String, String)> {
    list.iter().map(|(k, v)| (k.to_string(), v.to_string())).collect()
}

#[test]
fn rewrite_replaces_existing_property() {
    let contents = "#Minecraft server properties\nserver-port=25565\nmotd=hi\n".to_string();
    let out = rewrite_contents(contents, changes(&[("server-port", "25566")])).unwrap();
    assert_eq!(out, "#Minecraft server properties\r\nserver-port=25566\r\nmotd=hi");
}

#[test]
fn rewrite_appends_missing_property() {
    let contents = "motd=hi".to_string();
    let out = rewrite_contents(contents, changes(&[("enable-rcon", "true")])).unwrap();
    assert_eq!(out, "motd=hi\r\nenable-rcon=true");
}

#[test]
fn rewrite_without_changes_to_make() {
    assert_eq!(rewrite_contents("a=b".to_string(), Vec::new()), None);
    assert_eq!(rewrite_contents("server-port=25566\n".to_string(), changes(&[("server-port", "25566")])), None);
}

#[test]
fn rewrite_matches_trimmed_lowercase_keys_and_skips_comments() {
    let contents = "# server-port=1\n  Server-Port =1\nserver-port=2".to_string();
    let out = rewrite_contents(contents, changes(&[("server-port", "3")])).unwrap();
    assert_eq!(out, "# server-port=1\r\n  Server-Port =3\r\nserver-port=2");
}

#[test]
fn rewrite_keeps_lines_without_equals_sign() {
    let contents = "just text\r\n\r\nmotd=x".to_string();
    let out = rewrite_contents(contents, changes(&[("motd", "y"), ("query.port", "25566")])).unwrap();
    assert_eq!(out, "just text\r\n\r\nmotd=y\r\nquery.port=25566");
}

#[test]
fn rewrite_splits_at_first_equals_sign() {
    let contents = "motd=a=b".to_string();
    let out = rewrite_contents(contents, changes(&[("motd", "c")])).unwrap();
    assert_eq!(out, "motd=c");
}

#[test]
fn find_property_reads_trimmed_value() {
    let contents = "#comment\nrcon.password = secret \r\nserver-port=25566\n";
    assert_eq!(find_property(contents, "rcon.password"), Some("secret".to_string()));
    assert_eq!(find_property(contents, "SERVER-PORT"), Some("25566".to_string()));
    assert_eq!(find_property(contents, "motd"), None);
    assert_eq!(find_property("", "motd"), None);
}

#[test]
fn find_property_takes_first_match() {
    assert_eq!(find_property("a=1\na=2", "a"), Some("1".to_string()));
}

#[test]
fn read_after_rewrite_gives_new_value() {
    let contents = "server-ip=\nserver-port=25565\n".to_string();
    let out = rewrite_contents(
        contents,
        changes(&[("server-port", "25566"), ("enable-status", "true")]),
    )
    .unwrap();
    assert_eq!(find_property(&out, "server-port"), Some("25566".to_string()));
    assert_eq!(find_property(&out, "enable-status"), Some("true".to_string()));
    assert_eq!(find_property(&out, "server-ip"), Some("".to_string()));
}

#[test]
fn rewrite_twice_changes_nothing() {
    let contents = "#props\nserver-port=25565\nmotd=hi\n\n".to_string();
    let list = changes(&[("server-port", "25566"), ("enable-rcon", "true"), ("motd", "hi")]);
    let once = rewrite_contents(contents, list.clone()).unwrap();
    assert_eq!(once, "#props\r\nserver-port=25566\r\nmotd=hi\r\n\r\nenable-rcon=true");
    assert_eq!(rewrite_contents(once, list), None);
}

#[test]
fn comment_lines_never_count_as_properties() {
    let contents = "#server-port=1\n  # Server-Port=2\n".to_string();
    let out = rewrite_contents(contents, changes(&[("server-port", "3")])).unwrap();
    assert_eq!(out, "#server-port=1\r\n  # Server-Port=2\r\nserver-port=3");
    assert_eq!(find_property(&out, "server-port"), Some("3".to_string()));
    assert_eq!(rewrite_contents(out, changes(&[("server-port", "3")])), None);
}
