use rdnat::options::{parse_arguments, ArgumentError, Settings, DEFAULT_LOGPATH, DEFAULT_PASSWD, DEFAULT_PORT};

fn args(list: &[&str]) -> Vec<String> {
    list.iter().map(|s| s.to_string()).collect()
}

#[test]
fn parse_arguments_without_options_gives_the_defaults() {
    let s = parse_arguments(&args(&["rdnat"])).unwrap();
    assert_eq!(s, Settings::new());
    assert_eq!(s.port, "8000");
    assert_eq!(DEFAULT_PORT, "8000");
    assert_eq!(s.username, "");
    assert_eq!(s.password, "");
    assert_eq!(s.log_path, None);
    assert!(!s.help);
    assert!(s.unknown.is_empty());
    assert!(s.credentials().is_none());
    let none = parse_arguments(&[]).unwrap();
    assert_eq!(none, Settings::new());
}

#[test]
fn parse_arguments_reads_port_credentials_and_debug() {
    let s = parse_arguments(&args(&["rdnat", "-p", "8001", "-a", "user", "passwd", "-d"])).unwrap();
    assert_eq!(s.port, "8001");
    assert_eq!(s.username, "user");
    assert_eq!(s.password, "passwd");
    assert_eq!(s.log_path, Some("rdnat.log".to_string()));
    assert_eq!(DEFAULT_LOGPATH, "rdnat.log");
    let c = s.credentials().unwrap();
    assert_eq!(c.username, b"user".to_vec());
    assert_eq!(c.password, b"passwd".to_vec());
    let long = parse_arguments(&args(&["rdnat", "--debug", "--auth", "u", "p", "--port", "9"])).unwrap();
    assert_eq!(long.port, "9");
    assert_eq!(long.username, "u");
    assert_eq!(long.password, "p");
    assert_eq!(long.log_path, Some("rdnat.log".to_string()));
}

#[test]
fn parse_arguments_lets_a_later_option_win() {
    let s = parse_arguments(&args(&["rdnat", "-p", "1", "-p", "2", "-a", "a", "b", "-a", "c", "d"])).unwrap();
    assert_eq!(s.port, "2");
    assert_eq!(s.username, "c");
    assert_eq!(s.password, "d");
}

#[test]
fn parse_arguments_takes_option_words_as_values() {
    let s = parse_arguments(&args(&["rdnat", "-p", "-d", "-a", "-p", "-h"])).unwrap();
    assert_eq!(s.port, "-d");
    assert_eq!(s.username, "-p");
    assert_eq!(s.password, "-h");
    assert_eq!(s.log_path, None);
    assert!(!s.help);
}

#[test]
fn parse_arguments_stops_at_help_in_first_place_only() {
    let s = parse_arguments(&args(&["rdnat", "-h", "-p"])).unwrap();
    assert!(s.help);
    assert_eq!(s.port, "8000");
    let s = parse_arguments(&args(&["rdnat", "--help"])).unwrap();
    assert!(s.help);
    let s = parse_arguments(&args(&["rdnat", "-d", "-h"])).unwrap();
    assert!(!s.help);
    assert_eq!(s.unknown, vec!["-h".to_string()]);
}

#[test]
fn parse_arguments_collects_unknown_arguments_in_order() {
    let s = parse_arguments(&args(&["rdnat", "x", "-p", "1", "y", "-z"])).unwrap();
    assert_eq!(s.unknown, args(&["x", "y", "-z"]));
    assert_eq!(s.port, "1");
}

#[test]
fn parse_arguments_rejects_a_missing_port() {
    assert_eq!(parse_arguments(&args(&["rdnat", "-p"])), Err(ArgumentError::MissingPort));
    assert_eq!(parse_arguments(&args(&["rdnat", "-d", "--port"])), Err(ArgumentError::MissingPort));
    assert_eq!(ArgumentError::MissingPort.message(), "Error: Missing argument for -p or --port");
}

#[test]
fn parse_arguments_rejects_missing_credentials() {
    assert_eq!(parse_arguments(&args(&["rdnat", "-a"])), Err(ArgumentError::MissingCredentials));
    assert_eq!(parse_arguments(&args(&["rdnat", "-a", "user"])), Err(ArgumentError::MissingCredentials));
    assert_eq!(parse_arguments(&args(&["rdnat", "-p", "1", "--auth", "u"])), Err(ArgumentError::MissingCredentials));
    assert_eq!(
        ArgumentError::MissingCredentials.message(),
        "Error: Missing username or password for -auth or -a"
    );
}

#[test]
fn parse_arguments_fills_in_or_clears_the_password() {
    let s = parse_arguments(&args(&["rdnat", "-a", "user", ""])).unwrap();
    assert_eq!(s.password, "anonymous");
    assert_eq!(DEFAULT_PASSWD, "anonymous");
    assert_eq!(s.credentials().unwrap().password, b"anonymous".to_vec());
    let s = parse_arguments(&args(&["rdnat", "-a", "", "secret"])).unwrap();
    assert_eq!(s.username, "");
    assert_eq!(s.password, "");
    assert!(s.credentials().is_none());
}

#[test]
fn credentials_are_the_utf8_bytes() {
    let s = parse_arguments(&args(&["rdnat", "-a", "j\u{fc}rgen", "p\u{e4}ss"])).unwrap();
    let c = s.credentials().unwrap();
    assert_eq!(c.username, "j\u{fc}rgen".as_bytes().to_vec());
    assert_eq!(c.password, "p\u{e4}ss".as_bytes().to_vec());
}
