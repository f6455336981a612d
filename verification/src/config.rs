//! Client and server configuration: where the server lives, the API token and
//! the data directory, layered from a config file and environment variables.

use vstd::prelude::*;

verus! {

/// Settings that may each be absent.
#[derive(Debug, Clone)]
pub struct Config {
    /// Base URL of the server.
    pub url: Option<String>,
    /// API token.
    pub token: Option<String>,
    /// Directory holding the pages and their database.
    pub data_dir: Option<String>,
}

/// The abstract value of a [`Config`].
pub struct ConfigView {
    pub url: Option<Seq<char>>,
    pub token: Option<Seq<char>>,
    pub data_dir: Option<Seq<char>>,
}

/// An optional string taken by its characters.
pub open spec fn opt_view(o: Option<String>) -> Option<Seq<char>> {
    match o {
        Some(s) => Some(s@),
        None => None,
    }
}

impl View for Config {
    type V = ConfigView;

    open spec fn view(&self) -> ConfigView {
        ConfigView {
            url: opt_view(self.url),
            token: opt_view(self.token),
            data_dir: opt_view(self.data_dir),
        }
    }
}

/// The configuration with nothing set.
pub open spec fn empty_config() -> ConfigView {
    ConfigView { url: None, token: None, data_dir: None }
}

/// `second` laid over `first`: each setting that `second` has replaces `first`'s.
pub open spec fn overlay(first: Option<Seq<char>>, second: Option<Seq<char>>) -> Option<Seq<char>> {
    if second is Some {
        second
    } else {
        first
    }
}

/// What [`Config::merge`] makes of `base` and `other`.
pub open spec fn merged(base: ConfigView, other: ConfigView) -> ConfigView {
    ConfigView {
        url: overlay(base.url, other.url),
        token: overlay(base.token, other.token),
        data_dir: overlay(base.data_dir, other.data_dir),
    }
}

/// A setting that is present and not empty.
pub open spec fn nonempty(o: Option<Seq<char>>) -> bool {
    o matches Some(s) && s.len() > 0
}

/// A required setting that is missing (or empty).
pub enum ConfigError {
    /// No server URL is configured.
    UrlNotSet,
    /// No API token is configured.
    TokenNotSet,
}

impl ConfigError {
    /// The error's message.
    pub fn message(&self) -> (m: String)
        ensures
            m@ == (match self {
                ConfigError::UrlNotSet => "LINKDROP_URL is not set"@,
                ConfigError::TokenNotSet => "LINKDROP_TOKEN is not set"@,
            }),
    {
        match self {
            ConfigError::UrlNotSet => String::from_str("LINKDROP_URL is not set"),
            ConfigError::TokenNotSet => String::from_str("LINKDROP_TOKEN is not set"),
        }
    }
}

impl Default for Config {
    fn default() -> (c: Config)
        ensures
            c@ == empty_config(),
    {
        Config { url: None, token: None, data_dir: None }
    }
}

impl Config {
    /// Lays `other` over `self`: every setting that `other` has replaces the
    /// one in `self`; the others stay.
    pub fn merge(&mut self, other: Config)
        ensures
            final(self)@ == merged(old(self)@, other@),
    {
        if other.url.is_some() {
            self.url = other.url;
        }
        if other.token.is_some() {
            self.token = other.token;
        }
        if other.data_dir.is_some() {
            self.data_dir = other.data_dir;
        }
    }

    /// The configured URL, when it is set and not empty.
    pub fn require_url(&self) -> (r: Result<String, ConfigError>)
        ensures
            r matches Ok(u) ==> self@.url == Some(u@) && u@.len() > 0,
            r is Err ==> !nonempty(self@.url) && r == Err::<String, ConfigError>(
                ConfigError::UrlNotSet,
            ),
    {
        match &self.url {
            Some(u) => {
                if u.as_str().is_empty() {
                    Err(ConfigError::UrlNotSet)
                } else {
                    Ok(u.clone())
                }
            },
            None => Err(ConfigError::UrlNotSet),
        }
    }

    /// The configured token, when it is set and not empty.
    pub fn require_token(&self) -> (r: Result<String, ConfigError>)
        ensures
            r matches Ok(t) ==> self@.token == Some(t@) && t@.len() > 0,
            r is Err ==> !nonempty(self@.token) && r == Err::<String, ConfigError>(
                ConfigError::TokenNotSet,
            ),
    {
        match &self.token {
            Some(t) => {
                if t.as_str().is_empty() {
                    Err(ConfigError::TokenNotSet)
                } else {
                    Ok(t.clone())
                }
            },
            None => Err(ConfigError::TokenNotSet),
        }
    }

    /// The configuration that `Config::load` assembles: the config file's
    /// settings (when the file was read and parsed) laid over nothing, then
    /// `LINKDROP_URL`, `LINKDROP_TOKEN` and `LINKDROP_DATA_DIR` laid over that.
    pub fn from_sources(
        file: Option<Config>,
        env_url: Option<String>,
        env_token: Option<String>,
        env_data_dir: Option<String>,
    ) -> (c: Config)
        ensures
            c@ == merged(
                match file {
                    Some(f) => merged(empty_config(), f@),
                    None => empty_config(),
                },
                ConfigView {
                    url: opt_view(env_url),
                    token: opt_view(env_token),
                    data_dir: opt_view(env_data_dir),
                },
            ),
    {
        let mut config = Config::default();
        if let Some(f) = file {
            config.merge(f);
        }
        if let Some(url) = env_url {
            config.url = Some(url);
        }
        if let Some(token) = env_token {
            config.token = Some(token);
        }
        if let Some(dir) = env_data_dir {
            config.data_dir = Some(dir);
        }
        config
    }
}

/// The path below the home directory where the config file lives.
pub open spec fn config_suffix() -> Seq<char> {
    ".config/linkdrop/config.toml"@
}

/// `PathBuf::from(base).join(rel)` for a relative `rel`: a `/` goes between
/// the two unless `base` is empty or already ends with one.
pub open spec fn join_path(base: Seq<char>, rel: Seq<char>) -> Seq<char> {
    if base.len() > 0 && base.last() != '/' {
        base + seq!['/'] + rel
    } else {
        base + rel
    }
}

/// Where the config file is: `LINKDROP_CONFIG` when it is set, else
/// `$HOME/.config/linkdrop/config.toml`, else nowhere.
pub fn config_file_path(config_env: Option<String>, home: Option<String>) -> (r: Option<String>)
    ensures
        config_env is Some ==> opt_view(r) == opt_view(config_env),
        config_env is None && home is Some ==> opt_view(r) == Some(
            join_path(home->0@, config_suffix()),
        ),
        config_env is None && home is None ==> r is None,
{
    if let Some(path) = config_env {
        return Some(path);
    }
    if let Some(h) = home {
        let hs = crate::text::to_chars(h.as_str());
        let mut p = h.clone();
        if hs.len() > 0 && hs[hs.len() - 1] != '/' {
            crate::text::push_char(&mut p, '/');
        }
        p.append(".config/linkdrop/config.toml");
        return Some(p);
    }
    None
}

/// The data directory: `LINKDROP_DATA_DIR` when it is set, else `./data`.
pub fn default_data_dir(env: Option<String>) -> (r: String)
    ensures
        env is Some ==> r@ == env->0@,
        env is None ==> r@ == "./data"@,
{
    match env {
        Some(d) => d,
        None => String::from_str("./data"),
    }
}

/// Laying an empty configuration over another changes nothing.
pub proof fn merge_empty_is_identity(c: ConfigView)
    ensures
        merged(c, empty_config()) == c,
        merged(empty_config(), c) == c,
{
}

/// Laying the same configuration over twice is the same as laying it over once.
pub proof fn merge_idempotent(a: ConfigView, b: ConfigView)
    ensures
        merged(merged(a, b), b) == merged(a, b),
{
}

/// Layering is associative: laying `b` then `c` over `a` equals laying over
/// `a` what `c` laid over `b` makes.
pub proof fn merge_associative(a: ConfigView, b: ConfigView, c: ConfigView)
    ensures
        merged(merged(a, b), c) == merged(a, merged(b, c)),
{
}

} // verus!

verus! {

/// Environment variables override the config file: a setting given in the
/// environment wins, and the file's setting stands only where the environment
/// has none.
pub proof fn environment_overrides_file(file: ConfigView, env: ConfigView)
    ensures
        merged(merged(empty_config(), file), env).url == (if env.url is Some {
            env.url
        } else {
            file.url
        }),
        merged(merged(empty_config(), file), env).token == (if env.token is Some {
            env.token
        } else {
            file.token
        }),
        merged(merged(empty_config(), file), env).data_dir == (if env.data_dir is Some {
            env.data_dir
        } else {
            file.data_dir
        }),
{
}

} // verus!
