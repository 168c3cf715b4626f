//! The server's configuration: its defaults, where it is looked for, the
//! environment overrides, and the key that encrypts stored tokens.

use vstd::prelude::*;
use vstd::string::*;

use crate::text::{join_path, path_join};

verus! {

/// The whole configuration.
#[derive(Debug, Clone)]
pub struct Config {
    pub feishu: FeishuConfig,
    pub server: ServerConfig,
    pub rate_limit: RateLimitConfig,
    pub logging: LoggingConfig,
}

/// The Feishu application.
#[derive(Debug, Clone)]
pub struct FeishuConfig {
    /// The application id from the Feishu developer console.
    pub app_id: String,
    /// The application secret (`FEISHU_APP_SECRET` overrides it).
    pub app_secret: String,
    /// The base URL of the Feishu open API.
    pub base_url: String,
}

/// Where the server listens.
#[derive(Debug, Clone)]
pub struct ServerConfig {
    pub host: String,
    pub port: u16,
}

/// How many requests a user may make.
#[derive(Debug, Clone)]
pub struct RateLimitConfig {
    pub max_requests_per_minute: u64,
}

/// Logging.
#[derive(Debug, Clone)]
pub struct LoggingConfig {
    /// The level: trace, debug, info, warn or error.
    pub level: String,
    /// Whether tokens are hidden in the log.
    pub redact_tokens: bool,
}

/// The base URL used when none is configured.
pub fn default_base_url() -> (url: String)
    ensures
        url@ == "https://open.feishu.cn/open-apis"@,
{
    "https://open.feishu.cn/open-apis".to_owned()
}

/// The host used when none is configured.
pub fn default_host() -> (host: String)
    ensures
        host@ == "0.0.0.0"@,
{
    "0.0.0.0".to_owned()
}

/// The port used when none is configured.
pub fn default_port() -> (port: u16)
    ensures
        port == 3000,
{
    3000
}

/// The request limit used when none is configured.
pub fn default_max_requests_per_minute() -> (max: u64)
    ensures
        max == 100,
{
    100
}

/// The log level used when none is configured.
pub fn default_log_level() -> (level: String)
    ensures
        level@ == "info"@,
{
    "info".to_owned()
}

/// Whether tokens are hidden in the log when nothing is configured.
pub fn default_redact_tokens() -> (redact: bool)
    ensures
        redact,
{
    true
}

/// The configuration used when there is no configuration file: no
/// application, and every other setting at its default.
pub open spec fn is_default_config(c: Config) -> bool {
    &&& c.feishu.app_id@ == Seq::<char>::empty()
    &&& c.feishu.app_secret@ == Seq::<char>::empty()
    &&& c.feishu.base_url@ == "https://open.feishu.cn/open-apis"@
    &&& c.server.host@ == "0.0.0.0"@
    &&& c.server.port == 3000
    &&& c.rate_limit.max_requests_per_minute == 100
    &&& c.logging.level@ == "info"@
    &&& c.logging.redact_tokens
}

/// `c` with its secret replaced by `env_secret` when that is given and not
/// empty.
pub open spec fn with_secret(c: Config, d: Config, env_secret: Option<Seq<char>>) -> bool {
    &&& d.feishu.app_id == c.feishu.app_id
    &&& d.feishu.base_url == c.feishu.base_url
    &&& d.server == c.server
    &&& d.rate_limit == c.rate_limit
    &&& d.logging == c.logging
    &&& d.feishu.app_secret@ == match env_secret {
        Some(s) => if s.len() > 0 {
            s
        } else {
            c.feishu.app_secret@
        },
        None => c.feishu.app_secret@,
    }
}

pub open spec fn opt_view(o: Option<&str>) -> Option<Seq<char>> {
    match o {
        Some(s) => Some(s@),
        None => None,
    }
}

/// `dirs::home_dir`: the user's home directory, read from the environment
/// and the system, as text (lossily, when it is not UTF-8).  Nothing is
/// promised of it.
#[verifier::external_body]
fn user_home_dir() -> (dir: Option<String>) {
    match dirs::home_dir() {
        Some(dir) => Some(dir.to_string_lossy().into_owned()),
        None => None,
    }
}

/// The directory of the server's files: `.feishu-mcp` inside the given
/// home directory, or inside `.` when there is none.
pub open spec fn app_dir(home: Option<Seq<char>>) -> Seq<char> {
    path_join(
        match home {
            Some(d) => d,
            None => "."@,
        },
        ".feishu-mcp"@,
    )
}

/// The directory of the server's files.
pub fn app_dir_in(home: Option<&str>) -> (dir: String)
    ensures
        dir@ == app_dir(opt_view(home)),
{
    match home {
        Some(d) => join_path(d, ".feishu-mcp"),
        None => join_path(".", ".feishu-mcp"),
    }
}

/// The default token database: `tokens.db` in the server's directory.
pub fn token_db_path_in(home: Option<&str>) -> (path: String)
    ensures
        path@ == path_join(app_dir(opt_view(home)), "tokens.db"@),
{
    let dir = app_dir_in(home);
    join_path(dir.as_str(), "tokens.db")
}

/// The directory of the server's files: `~/.feishu-mcp`.
pub fn server_dir() -> (dir: String)
    ensures
        exists|home: Option<Seq<char>>| dir@ == app_dir(home),
{
    let home = user_home_dir();
    match home {
        Some(d) => app_dir_in(Some(d.as_str())),
        None => app_dir_in(None),
    }
}

/// The default token database: `~/.feishu-mcp/tokens.db`.
pub fn token_db_path() -> (path: String)
    ensures
        exists|home: Option<Seq<char>>| path@ == path_join(app_dir(home), "tokens.db"@),
{
    let home = user_home_dir();
    match home {
        Some(d) => token_db_path_in(Some(d.as_str())),
        None => token_db_path_in(None),
    }
}

impl Config {
    /// The configuration used when there is no configuration file.
    pub fn default() -> (c: Config)
        ensures
            is_default_config(c),
    {
        Config {
            feishu: FeishuConfig { app_id: String::new(), app_secret: String::new(), base_url: default_base_url() },
            server: ServerConfig { host: default_host(), port: default_port() },
            rate_limit: RateLimitConfig { max_requests_per_minute: default_max_requests_per_minute() },
            logging: LoggingConfig { level: default_log_level(), redact_tokens: default_redact_tokens() },
        }
    }

    /// The configuration with the secret from `FEISHU_APP_SECRET`, when that
    /// is set and not empty.
    pub fn with_env_secret(self, env_secret: Option<&str>) -> (c: Config)
        ensures
            with_secret(self, c, opt_view(env_secret)),
    {
        let mut c = self;
        if let Some(secret) = env_secret {
            if secret.unicode_len() > 0 {
                c.feishu.app_secret = secret.to_owned();
            }
        }
        c
    }

    /// The configuration in effect: the environment's secret over the
    /// configuration file, or over the defaults when there is no file.
    pub fn resolve(from_file: Option<Config>, env_secret: Option<&str>) -> (c: Config)
        ensures
            from_file is None ==> exists|d: Config| is_default_config(d) && with_secret(d, c, opt_view(env_secret)),
            from_file matches Some(f) ==> with_secret(f, c, opt_view(env_secret)),
    {
        match from_file {
            None => Config::default().with_env_secret(env_secret),
            Some(f) => f.with_env_secret(env_secret),
        }
    }

    /// The configuration file inside the given home directory.
    pub fn config_path_in(home: Option<&str>) -> (path: String)
        ensures
            path@ == path_join(app_dir(opt_view(home)), "config.yaml"@),
    {
        let dir = app_dir_in(home);
        join_path(dir.as_str(), "config.yaml")
    }

    /// The configuration file: `~/.feishu-mcp/config.yaml`.
    pub fn config_path() -> (path: String)
        ensures
            exists|home: Option<Seq<char>>| path@ == path_join(app_dir(home), "config.yaml"@),
    {
        let dir = user_home_dir();
        match dir {
            Some(d) => Config::config_path_in(Some(d.as_str())),
            None => Config::config_path_in(None),
        }
    }
}

/// The configuration file and the token database lie in `.feishu-mcp`
/// directly inside the home directory (a home given with or without a
/// trailing `/`), and inside `.` when there is no home directory.
pub proof fn lemma_files_under_home(home: Seq<char>)
    requires
        home.len() > 0,
    ensures
        path_join(app_dir(Some(home)), "config.yaml"@) == (if home.last() == '/' {
            home
        } else {
            home + "/"@
        }) + ".feishu-mcp/config.yaml"@,
        path_join(app_dir(Some(home)), "tokens.db"@) == (if home.last() == '/' {
            home
        } else {
            home + "/"@
        }) + ".feishu-mcp/tokens.db"@,
        path_join(app_dir(None), "config.yaml"@) == "./.feishu-mcp/config.yaml"@,
        path_join(app_dir(None), "tokens.db"@) == "./.feishu-mcp/tokens.db"@,
{
    reveal_strlit(".feishu-mcp");
    reveal_strlit("config.yaml");
    reveal_strlit("tokens.db");
    reveal_strlit("/");
    reveal_strlit(".");
    reveal_strlit(".feishu-mcp/config.yaml");
    reveal_strlit(".feishu-mcp/tokens.db");
    reveal_strlit("./.feishu-mcp/config.yaml");
    reveal_strlit("./.feishu-mcp/tokens.db");
    reveal_strlit("./.feishu-mcp");
    let dir = app_dir(Some(home));
    assert(dir.len() > 0);
    assert(dir.last() == 'p');
    if home.last() == '/' {
        assert(dir == home + ".feishu-mcp"@);
        assert(dir + seq!['/'] + "config.yaml"@ =~= home + ".feishu-mcp/config.yaml"@);
        assert(dir + seq!['/'] + "tokens.db"@ =~= home + ".feishu-mcp/tokens.db"@);
    } else {
        assert(dir == home + seq!['/'] + ".feishu-mcp"@);
        assert(dir + seq!['/'] + "config.yaml"@ =~= home + "/"@ + ".feishu-mcp/config.yaml"@);
        assert(dir + seq!['/'] + "tokens.db"@ =~= home + "/"@ + ".feishu-mcp/tokens.db"@);
    }
    assert(app_dir(None) =~= "./.feishu-mcp"@) by {
        assert("."@ + seq!['/'] + ".feishu-mcp"@ =~= "./.feishu-mcp"@);
    }
    assert(app_dir(None) + seq!['/'] + "config.yaml"@ =~= "./.feishu-mcp/config.yaml"@);
    assert(app_dir(None) + seq!['/'] + "tokens.db"@ =~= "./.feishu-mcp/tokens.db"@);
}

/// Why no encryption key could be had.
#[derive(Debug, Clone, Copy, PartialEq, Eq, Structural)]
pub enum KeyError {
    /// `FEISHU_ENCRYPTION_KEY` is not exactly 32 bytes long.
    WrongLength,
}

impl KeyError {
    /// The error's message.
    pub fn to_string(&self) -> (s: String)
        ensures
            s@ == "FEISHU_ENCRYPTION_KEY must be exactly 32 bytes"@,
    {
        "FEISHU_ENCRYPTION_KEY must be exactly 32 bytes".to_owned()
    }
}

/// `rand::random`: a key of 32 bytes drawn from the thread-local generator.
#[verifier::external_body]
fn random_key() -> (key: [u8; 32]) {
    rand::random()
}

/// The encryption key of the token store, given the value of
/// `FEISHU_ENCRYPTION_KEY` and a freshly generated key: the variable's
/// bytes when it is set (an error unless they are exactly 32), else the
/// generated key.
pub fn encryption_key_from(env_key: Option<&str>, generated: [u8; 32]) -> (key: Result<[u8; 32], KeyError>)
    ensures
        env_key is None ==> (key matches Ok(k) && k@ == generated@),
        env_key matches Some(s) ==> (s.spec_bytes().len() != 32 <==> key is Err),
        env_key matches Some(s) ==> (key matches Ok(k) ==> k@ == s.spec_bytes()),
{
    match env_key {
        Some(s) => {
            let bytes = s.as_bytes();
            if bytes.len() != 32 {
                return Err(KeyError::WrongLength);
            }
            let mut key = [0u8; 32];
            let mut i: usize = 0;
            while i < 32
                invariant
                    i <= 32,
                    bytes@.len() == 32,
                    forall|j: int| 0 <= j < i ==> key@[j] == bytes@[j],
                decreases 32 - i,
            {
                key[i] = bytes[i];
                i = i + 1;
            }
            assert(key@ =~= bytes@);
            Ok(key)
        },
        None => Ok(generated),
    }
}

/// The encryption key of the token store: the bytes of
/// `FEISHU_ENCRYPTION_KEY` when it is set (an error unless they are exactly
/// 32), else a key generated at random.
pub fn encryption_key(env_key: Option<&str>) -> (key: Result<[u8; 32], KeyError>)
    ensures
        env_key is None ==> key is Ok,
        env_key matches Some(s) ==> (s.spec_bytes().len() != 32 <==> key is Err),
        env_key matches Some(s) ==> (key matches Ok(k) ==> k@ == s.spec_bytes()),
{
    match env_key {
        Some(_) => encryption_key_from(env_key, [0u8; 32]),
        None => encryption_key_from(None, random_key()),
    }
}

} // verus!
