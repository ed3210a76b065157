use https_server::config::{parse_port, Config, ConfigError, DEFAULT_PORT};

fn text(s: &str) -> Option<String> {
    Some(s.to_string())
}

#[test]
fn unset_variables_take_their_defaults() {
    let config = Config::from_env(None, None, None, None).unwrap();
    assert_eq!(config.host, "0.0.0.0");
    assert_eq!(config.port, 8443);
    assert_eq!(config.port, DEFAULT_PORT);
    assert_eq!(config.cert_path, "cert.pem");
    assert_eq!(config.key_path, "key.pem");
}

#[test]
fn set_variables_are_kept() {
    let config = Config::from_env(
        text("127.0.0.1"),
        text("9000"),
        text("/etc/tls/chain.pem"),
        text("/etc/tls/private.pem"),
    )
    .unwrap();
    assert_eq!(config.host, "127.0.0.1");
    assert_eq!(config.port, 9000);
    assert_eq!(config.cert_path, "/etc/tls/chain.pem");
    assert_eq!(config.key_path, "/etc/tls/private.pem");
}

#[test]
fn each_variable_defaults_on_its_own() {
    let config = Config::from_env(text("localhost"), None, None, text("k.pem")).unwrap();
    assert_eq!(config.host, "localhost");
    assert_eq!(config.port, 8443);
    assert_eq!(config.cert_path, "cert.pem");
    assert_eq!(config.key_path, "k.pem");
}

#[test]
fn a_port_that_is_no_number_is_an_error() {
    let r = Config::from_env(None, text("notanumber"), None, None);
    assert_eq!(r, Err(ConfigError::InvalidPort));
}

#[test]
fn an_empty_port_is_an_error() {
    let r = Config::from_env(text("example.org"), text(""), None, None);
    assert_eq!(r, Err(ConfigError::InvalidPort));
}

#[test]
fn a_port_out_of_range_is_an_error() {
    assert_eq!(
        Config::from_env(None, text("65536"), None, None),
        Err(ConfigError::InvalidPort)
    );
    assert_eq!(Config::from_env(None, text("65535"), None, None).unwrap().port, 65535);
}

#[test]
fn parse_port_reads_plain_numerals() {
    assert_eq!(parse_port("8443"), Some(8443));
    assert_eq!(parse_port("0"), Some(0));
    assert_eq!(parse_port("65535"), Some(65535));
    assert_eq!(parse_port("+80"), Some(80));
    assert_eq!(parse_port("0080"), Some(80));
    assert_eq!(parse_port("000000065535"), Some(65535));
}

#[test]
fn parse_port_refuses_everything_else() {
    assert_eq!(parse_port(""), None);
    assert_eq!(parse_port("+"), None);
    assert_eq!(parse_port("-"), None);
    assert_eq!(parse_port("-1"), None);
    assert_eq!(parse_port("++1"), None);
    assert_eq!(parse_port("1+"), None);
    assert_eq!(parse_port(" 80"), None);
    assert_eq!(parse_port("80 "), None);
    assert_eq!(parse_port("8o"), None);
    assert_eq!(parse_port("65536"), None);
    assert_eq!(parse_port("99999999999999999999999"), None);
    assert_eq!(parse_port("70000x"), None);
    assert_eq!(parse_port("notanumber"), None);
    assert_eq!(parse_port("0x50"), None);
    assert_eq!(parse_port("8443\n"), None);
}

#[test]
fn parse_port_agrees_with_the_standard_parser() {
    let samples = [
        "", "+", "-", "0", "+0", "-0", "1", "12", "123", "1234", "12345", "123456", "65534",
        "65535", "65536", "65540", "70000", "+65535", "+65536", "00", "007", "+007", "4 2", "4_2",
        "4.2", "1e3", "a", "1a", "a1", "+-1", "+ 1", "\t1", "4294967296", "4294967297",
        "18446744073709551616", "429496729600",
    ];
    for s in samples {
        assert_eq!(parse_port(s), s.parse::<u16>().ok(), "on {:?}", s);
    }
    for p in 0..=u16::MAX {
        assert_eq!(parse_port(&p.to_string()), Some(p));
    }
}

#[test]
fn bind_address_joins_host_and_port() {
    let config = Config::from_env(None, None, None, None).unwrap();
    assert_eq!(config.bind_address(), "0.0.0.0:8443");
}

#[test]
fn bind_address_writes_the_port_in_base_ten() {
    let mut config = Config {
        host: "example.org".to_string(),
        port: 0,
        cert_path: String::new(),
        key_path: String::new(),
    };
    assert_eq!(config.bind_address(), "example.org:0");
    config.port = 7;
    assert_eq!(config.bind_address(), "example.org:7");
    config.port = 10;
    assert_eq!(config.bind_address(), "example.org:10");
    config.port = 1005;
    assert_eq!(config.bind_address(), "example.org:1005");
    config.port = 65535;
    assert_eq!(config.bind_address(), "example.org:65535");
    config.host = String::new();
    assert_eq!(config.bind_address(), ":65535");
}

#[test]
fn bind_address_matches_the_standard_formatting() {
    for port in [0u16, 1, 9, 10, 11, 99, 100, 101, 999, 1000, 8080, 8443, 9999, 10000, 60000, 65535] {
        let config = Config {
            host: "::1".to_string(),
            port,
            cert_path: "c".to_string(),
            key_path: "k".to_string(),
        };
        assert_eq!(config.bind_address(), format!("{}:{}", "::1", port));
    }
}

#[test]
fn the_port_of_a_bind_address_reads_back() {
    for port in [0u16, 5, 80, 443, 8443, 65535] {
        let config = Config {
            host: "h".to_string(),
            port,
            cert_path: String::new(),
            key_path: String::new(),
        };
        let address = config.bind_address();
        let written = address.strip_prefix("h:").unwrap();
        assert_eq!(parse_port(written), Some(port));
    }
}
