use vstd::prelude::*;

verus! {

/// How the connection to the store negotiates TLS.
#[derive(Clone, Copy, Debug, PartialEq, Eq, Structural)]
pub enum SslMode {
    Disable,
    Prefer,
    Require,
}

/// Where and how to reach the store.
#[derive(Clone, Debug, PartialEq, Eq)]
pub struct PgSettings {
    pub host: Option<String>,
    pub port: Option<u16>,
    pub dbname: Option<String>,
    pub user: Option<String>,
    pub password: Option<String>,
    pub ssl_mode: Option<SslMode>,
}

/// The service's settings: log verbosity, listen address, and the store.
#[derive(Clone, Debug, PartialEq, Eq)]
pub struct Config {
    pub log_level: String,
    pub server_addr: String,
    pub pg: PgSettings,
}

pub open spec fn is_text(s: Option<String>, t: Seq<char>) -> bool {
    s is Some && s->0@ == t
}

/// The settings used when no configuration file can be read: a local store
/// named `bank` on the standard port, without TLS.
pub fn default_config() -> (cfg: Config)
    ensures
        cfg.log_level@ == "info"@,
        cfg.server_addr@ == "0.0.0.0:8080"@,
        is_text(cfg.pg.host, "0.0.0.0"@),
        cfg.pg.port == Some(5432u16),
        is_text(cfg.pg.dbname, "bank"@),
        is_text(cfg.pg.user, "root"@),
        is_text(cfg.pg.password, "secret"@),
        cfg.pg.ssl_mode == Some(SslMode::Disable),
{
    Config {
        log_level: String::from_str("info"),
        server_addr: String::from_str("0.0.0.0:8080"),
        pg: PgSettings {
            host: Some(String::from_str("0.0.0.0")),
            port: Some(5432),
            dbname: Some(String::from_str("bank")),
            user: Some(String::from_str("root")),
            password: Some(String::from_str("secret")),
            ssl_mode: Some(SslMode::Disable),
        },
    }
}

} // verus!
