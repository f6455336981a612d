use linkdrop::cli::api_base;
use linkdrop::cli::bearer;
use linkdrop::cli::deleted_message;
use linkdrop::cli::failure_message;
use linkdrop::cli::list_line;
use linkdrop::cli::page_endpoint;
use linkdrop::cli::pages_endpoint;
use linkdrop::cli::resolve_credentials;
use linkdrop::cli::CredentialError;
use linkdrop::config::config_file_path;
use linkdrop::config::default_data_dir;
use linkdrop::config::Config;
use linkdrop::config::ConfigError;

fn cfg(url: Option<&str>, token: Option<&str>, dir: Option<&str>) -> Config {
    Config {
        url: url.map(|s| s.to_string()),
        token: token.map(|s| s.to_string()),
        data_dir: dir.map(|s| s.to_string()),
    }
}

#[test]
fn merge_overrides_only_present_settings() {
    let mut c = cfg(Some("https://a"), Some("t1"), None);
    c.merge(cfg(None, Some("t2"), Some("/data")));
    assert_eq!(c.url.as_deref(), Some("https://a"));
    assert_eq!(c.token.as_deref(), Some("t2"));
    assert_eq!(c.data_dir.as_deref(), Some("/data"));
}

#[test]
fn merge_with_empty_changes_nothing() {
    let mut c = cfg(Some("u"), None, Some("d"));
    c.merge(Config::default());
    assert_eq!(c.url.as_deref(), Some("u"));
    assert_eq!(c.token, None);
    assert_eq!(c.data_dir.as_deref(), Some("d"));
}

#[test]
fn merge_is_idempotent_and_associative_example() {
    let a = cfg(Some("a"), None, Some("da"));
    let b = cfg(None, Some("tb"), None);
    let c = cfg(Some("c"), None, None);
    let mut once = a.clone();
    once.merge(b.clone());
    let mut twice = once.clone();
    twice.merge(b.clone());
    assert_eq!(format!("{:?}", once), format!("{:?}", twice));

    let mut left = a.clone();
    left.merge(b.clone());
    left.merge(c.clone());
    let mut bc = b.clone();
    bc.merge(c.clone());
    let mut right = a.clone();
    right.merge(bc);
    assert_eq!(format!("{:?}", left), format!("{:?}", right));
}

#[test]
fn require_url_and_token() {
    let c = cfg(Some("https://x"), Some(""), None);
    assert_eq!(c.require_url().ok().as_deref(), Some("https://x"));
    match c.require_token() {
        Err(e) => assert_eq!(e.message(), "LINKDROP_TOKEN is not set"),
        Ok(_) => panic!("empty token accepted"),
    }
    match Config::default().require_url() {
        Err(ConfigError::UrlNotSet) => {}
        _ => panic!("missing url accepted"),
    }
    assert_eq!(ConfigError::UrlNotSet.message(), "LINKDROP_URL is not set");
    assert_eq!(cfg(None, Some("tok"), None).require_token().ok().as_deref(), Some("tok"));
}

#[test]
fn environment_overrides_file_example() {
    let file = cfg(Some("https://file"), Some("file-token"), Some("/file"));
    let c = Config::from_sources(Some(file), Some("https://env".to_string()), None, None);
    assert_eq!(c.url.as_deref(), Some("https://env"));
    assert_eq!(c.token.as_deref(), Some("file-token"));
    assert_eq!(c.data_dir.as_deref(), Some("/file"));
    let c = Config::from_sources(None, None, Some(String::new()), Some("/env".to_string()));
    assert_eq!(c.url, None);
    assert_eq!(c.token.as_deref(), Some(""));
    assert_eq!(c.data_dir.as_deref(), Some("/env"));
}

#[test]
fn config_file_location() {
    assert_eq!(config_file_path(Some("/etc/l.toml".into()), Some("/home/u".into())).as_deref(), Some("/etc/l.toml"));
    assert_eq!(config_file_path(None, Some("/home/u".into())).as_deref(), Some("/home/u/.config/linkdrop/config.toml"));
    assert_eq!(config_file_path(None, Some("/home/u/".into())).as_deref(), Some("/home/u/.config/linkdrop/config.toml"));
    assert_eq!(config_file_path(None, Some(String::new())).as_deref(), Some(".config/linkdrop/config.toml"));
    assert_eq!(config_file_path(None, None), None);
}

#[test]
fn data_dir_default() {
    assert_eq!(default_data_dir(None), "./data");
    assert_eq!(default_data_dir(Some("/srv".into())), "/srv");
}

#[test]
fn credentials_prefer_flags_then_file() {
    let file = cfg(Some("https://file"), Some("ft"), None);
    let (u, t) = resolve_credentials(Some("https://flag".into()), None, file.clone()).ok().unwrap();
    assert_eq!((u.as_str(), t.as_str()), ("https://flag", "ft"));
    let (u, t) = resolve_credentials(None, Some("flagtok".into()), file).ok().unwrap();
    assert_eq!((u.as_str(), t.as_str()), ("https://file", "flagtok"));
}

#[test]
fn credentials_missing() {
    match resolve_credentials(Some(String::new()), Some("t".into()), cfg(Some("https://file"), None, None)) {
        Err(e) => assert_eq!(e.message(), "LINKDROP_URL is not set (env, config file, or --url)"),
        Ok(_) => panic!("empty url accepted"),
    }
    match resolve_credentials(None, None, cfg(Some("https://file"), None, None)) {
        Err(CredentialError::MissingToken) => {}
        _ => panic!("missing token accepted"),
    }
    assert_eq!(CredentialError::MissingToken.message(), "LINKDROP_TOKEN is not set (env, config file, or --token)");
}

#[test]
fn cli_requests_and_output() {
    assert_eq!(api_base("https://x.io///"), "https://x.io");
    assert_eq!(api_base("https://x.io"), "https://x.io");
    assert_eq!(pages_endpoint("https://x.io"), "https://x.io/api/pages");
    assert_eq!(page_endpoint("https://x.io", "demo"), "https://x.io/api/pages/demo");
    assert_eq!(bearer("abc"), "Bearer abc");
    assert_eq!(deleted_message("demo"), "deleted demo");
    assert_eq!(
        list_line("demo", "https://x.io/demo", 1234, None),
        "demo  https://x.io/demo  1234 bytes  expires: never"
    );
    assert_eq!(
        list_line("d", "u", -7, Some("2030-01-01T00:00:00+00:00")),
        "d  u  -7 bytes  expires: 2030-01-01T00:00:00+00:00"
    );
    assert_eq!(list_line("d", "u", i64::MIN, None), "d  u  -9223372036854775808 bytes  expires: never");
    assert_eq!(failure_message("404 Not Found", "{\"error\":\"x\"}", Some("x")), "404 Not Found: x");
    assert_eq!(failure_message("502 Bad Gateway", "oops", None), "502 Bad Gateway: oops");
}

#[test]
fn trailing_slashes_are_all_removed() {
    assert_eq!(api_base("/"), "");
    assert_eq!(api_base("https://a//b//"), "https://a//b");
    assert_eq!(linkdrop::server::page_url(&linkdrop::server::public_url(Some("https://x/".into())), "p"), "https://x/p");
}
