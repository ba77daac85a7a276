use heartbeat_pusher::config::{
    parse_interval, Config, ConfigError, DEFAULT_INTERVAL_SECONDS, INTERVAL_VARIABLE, URL_VARIABLE,
};

fn text(value: &str) -> Option<String> {
    Some(String::from(value))
}

#[test]
fn variables_have_their_names() {
    assert_eq!(URL_VARIABLE, "PUSH_URL");
    assert_eq!(INTERVAL_VARIABLE, "PUSH_INTERVAL_SECONDS");
    assert_eq!(DEFAULT_INTERVAL_SECONDS, 60);
}

#[test]
fn both_values_make_a_configuration() {
    let config = Config::from_values(text("https://example.test/ping"), text("5")).unwrap();
    assert_eq!(config.url(), "https://example.test/ping");
    assert_eq!(config.interval_seconds(), 5);
}

#[test]
fn interval_defaults_to_sixty() {
    let config = Config::from_values(text("https://example.test/ping"), None).unwrap();
    assert_eq!(config.url(), "https://example.test/ping");
    assert_eq!(config.interval_seconds(), 60);
}

#[test]
fn unset_interval_is_the_same_as_sixty() {
    let unset = Config::from_values(text("https://example.test/ping"), None).unwrap();
    let explicit = Config::from_values(text("https://example.test/ping"), text("60")).unwrap();
    assert_eq!(unset.url(), explicit.url());
    assert_eq!(unset.interval_seconds(), explicit.interval_seconds());
    assert_eq!(parse_interval(None), parse_interval(Some("60")));
}

#[test]
fn missing_url_is_fatal() {
    assert_eq!(Config::from_values(None, None).err(), Some(ConfigError::MissingUrl));
    assert_eq!(Config::from_values(None, text("5")).err(), Some(ConfigError::MissingUrl));
}

#[test]
fn missing_url_comes_before_a_bad_interval() {
    assert_eq!(Config::from_values(None, text("abc")).err(), Some(ConfigError::MissingUrl));
    assert_eq!(Config::from_values(text(""), text("abc")).err(), Some(ConfigError::EmptyUrl));
}

#[test]
fn empty_url_is_fatal() {
    assert_eq!(Config::from_values(text(""), None).err(), Some(ConfigError::EmptyUrl));
    assert_eq!(Config::from_values(text(""), text("5")).err(), Some(ConfigError::EmptyUrl));
}

#[test]
fn malformed_interval_is_fatal() {
    let url = "https://example.test/ping";
    assert_eq!(Config::from_values(text(url), text("abc")).err(), Some(ConfigError::InvalidInterval));
    assert_eq!(Config::from_values(text(url), text("-5")).err(), Some(ConfigError::InvalidInterval));
    assert_eq!(Config::from_values(text(url), text("")).err(), Some(ConfigError::InvalidInterval));
    assert_eq!(Config::from_values(text(url), text(" 5")).err(), Some(ConfigError::InvalidInterval));
    assert_eq!(Config::from_values(text(url), text("5s")).err(), Some(ConfigError::InvalidInterval));
    assert_eq!(Config::from_values(text(url), text("1.5")).err(), Some(ConfigError::InvalidInterval));
}

#[test]
fn zero_interval_is_fatal() {
    let url = "https://example.test/ping";
    assert_eq!(Config::from_values(text(url), text("0")).err(), Some(ConfigError::InvalidInterval));
    assert_eq!(Config::from_values(text(url), text("000")).err(), Some(ConfigError::InvalidInterval));
    assert_eq!(Config::from_values(text(url), text("+0")).err(), Some(ConfigError::InvalidInterval));
}

#[test]
fn interval_too_large_is_fatal() {
    let url = "https://example.test/ping";
    assert_eq!(
        Config::from_values(text(url), text("18446744073709551616")).err(),
        Some(ConfigError::InvalidInterval)
    );
    let config = Config::from_values(text(url), text("18446744073709551615")).unwrap();
    assert_eq!(config.interval_seconds(), u64::MAX);
}

#[test]
fn parse_interval_reads_seconds() {
    assert_eq!(parse_interval(None), Some(60));
    assert_eq!(parse_interval(Some("1")), Some(1));
    assert_eq!(parse_interval(Some("5")), Some(5));
    assert_eq!(parse_interval(Some("+5")), Some(5));
    assert_eq!(parse_interval(Some("3600")), Some(3600));
    assert_eq!(parse_interval(Some("0")), None);
    assert_eq!(parse_interval(Some("abc")), None);
    assert_eq!(parse_interval(Some("-5")), None);
    assert_eq!(parse_interval(Some("")), None);
}

#[test]
fn any_url_text_is_kept_as_it_is() {
    let config = Config::from_values(text(" not a url "), text("7")).unwrap();
    assert_eq!(config.url(), " not a url ");
    assert_eq!(config.interval_seconds(), 7);
}

#[test]
fn errors_have_their_messages() {
    assert_eq!(
        ConfigError::MissingUrl.message(),
        "ERROR: PUSH_URL environment variable is not set."
    );
    assert_eq!(ConfigError::EmptyUrl.message(), "ERROR: PUSH_URL environment variable is empty.");
    assert_eq!(ConfigError::InvalidInterval.message(), "ERROR: Invalid interval value.");
}
