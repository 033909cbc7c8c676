use rdnat::modes::{parse_protocol, select_mode, Mode, Protocol};

fn args(list: &[&str]) -> Vec<String> {
    list.iter().map(|s| s.to_string()).collect()
}

#[test]
fn select_mode_reads_the_three_tunnel_modes() {
    assert_eq!(
        select_mode(&args(&["rdnat", "listen", "7000", "7001"])),
        Mode::Listen { port0: "7000".to_string(), port1: "7001".to_string() }
    );
    assert_eq!(
        select_mode(&args(&["rdnat", "agent", "a:1", "b:2"])),
        Mode::Agent { addr0: "a:1".to_string(), addr1: "b:2".to_string() }
    );
    assert_eq!(
        select_mode(&args(&["rdnat", "forward", "8080", "10.0.0.1:80"])),
        Mode::Forward { port: "8080".to_string(), addr: "10.0.0.1:80".to_string() }
    );
}

#[test]
fn select_mode_reads_proxy_with_and_without_login() {
    assert_eq!(
        select_mode(&args(&["rdnat", "proxy", "socks5", "0.0.0.0:1080"])),
        Mode::Proxy { protocol: Protocol::Socks5, listen_addr: "0.0.0.0:1080".to_string(), login: None }
    );
    assert_eq!(
        select_mode(&args(&["rdnat", "proxy", "http", ":8080", "-no-auth"])),
        Mode::Proxy { protocol: Protocol::Http, listen_addr: ":8080".to_string(), login: None }
    );
    assert_eq!(
        select_mode(&args(&["rdnat", "proxy", "http", ":8080", "user", "pass"])),
        Mode::Proxy {
            protocol: Protocol::Http,
            listen_addr: ":8080".to_string(),
            login: Some(("user".to_string(), "pass".to_string())),
        }
    );
}

#[test]
fn select_mode_shows_the_usage_for_malformed_modes() {
    assert_eq!(select_mode(&args(&["rdnat", "listen", "7000"])), Mode::Usage);
    assert_eq!(select_mode(&args(&["rdnat", "listen", "1", "2", "3"])), Mode::Usage);
    assert_eq!(select_mode(&args(&["rdnat", "agent"])), Mode::Usage);
    assert_eq!(select_mode(&args(&["rdnat", "forward", "1"])), Mode::Usage);
    assert_eq!(select_mode(&args(&["rdnat", "proxy"])), Mode::Usage);
    assert_eq!(select_mode(&args(&["rdnat", "proxy", "http"])), Mode::Usage);
    assert_eq!(select_mode(&args(&["rdnat", "proxy", "ftp", ":1"])), Mode::Usage);
    assert_eq!(select_mode(&args(&["rdnat", "proxy", "http", ":1", "user"])), Mode::Usage);
    assert_eq!(select_mode(&args(&["rdnat", "proxy", "http", ":1", "a", "b", "c"])), Mode::Usage);
}

#[test]
fn select_mode_reads_version_and_help() {
    assert_eq!(select_mode(&args(&["rdnat", "-version"])), Mode::Version);
    assert_eq!(select_mode(&args(&["rdnat", "-help", "x"])), Mode::Help);
}

#[test]
fn select_mode_leaves_everything_else_to_the_options() {
    assert_eq!(select_mode(&args(&[])), Mode::Options);
    assert_eq!(select_mode(&args(&["rdnat"])), Mode::Options);
    assert_eq!(select_mode(&args(&["rdnat", "-p", "8001"])), Mode::Options);
    assert_eq!(select_mode(&args(&["rdnat", "-h"])), Mode::Options);
    assert_eq!(select_mode(&args(&["rdnat", "Listen", "1", "2"])), Mode::Options);
}

#[test]
fn parse_protocol_knows_two_names() {
    assert_eq!(parse_protocol("http"), Some(Protocol::Http));
    assert_eq!(parse_protocol("socks5"), Some(Protocol::Socks5));
    assert_eq!(parse_protocol("HTTP"), None);
    assert_eq!(parse_protocol(""), None);
}
