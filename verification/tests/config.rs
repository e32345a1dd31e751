use bucket_gateway::config::{listen_port, parse_port, storage_endpoint, Config, DEFAULT_PORT};

#[test]
fn port_defaults_when_unset() {
    assert_eq!(listen_port(None), Some(5000));
    assert_eq!(DEFAULT_PORT, 5000);
}

#[test]
fn port_is_read_from_setting() {
    assert_eq!(listen_port(Some("8080")), Some(8080));
    assert_eq!(listen_port(Some("0")), Some(0));
    assert_eq!(listen_port(Some("65535")), Some(65535));
}

#[test]
fn malformed_port_is_refused() {
    assert_eq!(listen_port(Some("")), None);
    assert_eq!(listen_port(Some("http")), None);
    assert_eq!(listen_port(Some("80 ")), None);
    assert_eq!(listen_port(Some(" 80")), None);
    assert_eq!(listen_port(Some("-1")), None);
    assert_eq!(listen_port(Some("65536")), None);
    assert_eq!(listen_port(Some("99999999999999999999")), None);
    assert_eq!(listen_port(Some("8o8o")), None);
    assert_eq!(listen_port(Some("\u{661}\u{662}")), None);
}

#[test]
fn port_allows_plus_and_leading_zeros() {
    assert_eq!(parse_port("+5000"), Some(5000));
    assert_eq!(parse_port("00080"), Some(80));
    assert_eq!(parse_port("+"), None);
    assert_eq!(parse_port("++1"), None);
    assert_eq!(parse_port("+-1"), None);
    assert_eq!(parse_port("0000000000000000000065535"), Some(65535));
}

#[test]
fn port_reads_as_std_does() {
    for text in ["", "+", "-", "0", "+0", "-0", "1", "443", "5000", "65535", "65536", "655350",
        "4294967296", "4294967297", "12a", "a12", "1 2", "+65535", "+65536", "007"]
    {
        assert_eq!(parse_port(text), text.parse::<u16>().ok(), "{:?}", text);
    }
}

#[test]
fn endpoint_is_derived_from_account() {
    assert_eq!(storage_endpoint("abc123"), "https://abc123.r2.cloudflarestorage.com");
    assert_eq!(storage_endpoint(""), "https://.r2.cloudflarestorage.com");
}

#[test]
fn config_holds_bucket_and_port() {
    let config = Config { bucket_name: "sites".to_string(), listen_port: DEFAULT_PORT };
    assert_eq!(config.clone(), config);
    assert_eq!(config.bucket_name, "sites");
    assert_eq!(config.listen_port, 5000);
}

#[test]
fn settings_with_port() {
    let config = Config::from_settings("sites".to_string(), Some("8080"));
    assert_eq!(config, Some(Config { bucket_name: "sites".to_string(), listen_port: 8080 }));
}

#[test]
fn settings_without_port_use_default() {
    let config = Config::from_settings("sites".to_string(), None);
    assert_eq!(config, Some(Config { bucket_name: "sites".to_string(), listen_port: 5000 }));
}

#[test]
fn settings_with_malformed_port_are_refused() {
    assert_eq!(Config::from_settings("sites".to_string(), Some("five thousand")), None);
    assert_eq!(Config::from_settings("sites".to_string(), Some("70000")), None);
}
