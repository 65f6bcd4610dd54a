//! Connect planning: the pool options each dialect is built with, the
//! defaults that fill unset fields, the SSL mode mapping, and the one-shot
//! URLs of `test_connection`. The sockets are opened outside; which host,
//! port, user, database and TLS mode they carry is decided here.
use vstd::prelude::*;

use crate::sqlbuild::view_opt_str;
use crate::text::{dec_str, push_dec_u64, str_eq};
use crate::types::{ConnectionConfig, CoreError, DatabaseType};

verus! {

/// Pool bound for the network dialects.
pub const POOL_MAX_CONNECTIONS: u32 = 5;

/// Pool bound for SQLite, whose file admits one writer.
pub const SQLITE_MAX_CONNECTIONS: u32 = 1;

/// Pool acquisition timeout, in seconds.
pub const ACQUIRE_TIMEOUT_SECS: u64 = 5;

/// The Postgres TLS mode ladder.
#[derive(Clone, Copy, Debug, PartialEq, Eq, Structural)]
pub enum PgSslModePlan {
    Disable,
    Prefer,
    Require,
    VerifyCa,
    VerifyFull,
}

/// Which Postgres TLS mode a config's textual mode names; anything
/// unrecognised disables TLS.
pub open spec fn pg_ssl_mode_spec(mode: Option<Seq<char>>) -> PgSslModePlan {
    match mode {
        Option::Some(m) => if m == "require"@ {
            PgSslModePlan::Require
        } else if m == "verify-ca"@ {
            PgSslModePlan::VerifyCa
        } else if m == "verify-full"@ {
            PgSslModePlan::VerifyFull
        } else if m == "prefer"@ {
            PgSslModePlan::Prefer
        } else {
            PgSslModePlan::Disable
        },
        Option::None => PgSslModePlan::Disable,
    }
}

pub fn pg_ssl_mode_of(mode: &Option<String>) -> (r: PgSslModePlan)
    ensures
        r == pg_ssl_mode_spec(view_opt_str(*mode)),
{
    match mode {
        Option::Some(m) => {
            if str_eq(m.as_str(), "require") {
                PgSslModePlan::Require
            } else if str_eq(m.as_str(), "verify-ca") {
                PgSslModePlan::VerifyCa
            } else if str_eq(m.as_str(), "verify-full") {
                PgSslModePlan::VerifyFull
            } else if str_eq(m.as_str(), "prefer") {
                PgSslModePlan::Prefer
            } else {
                PgSslModePlan::Disable
            }
        },
        Option::None => PgSslModePlan::Disable,
    }
}

/// Whether a config's textual mode demands TLS of MySQL, which only knows
/// required or disabled.
pub open spec fn mysql_ssl_required_spec(mode: Option<Seq<char>>) -> bool {
    mode == Option::Some("require"@) || mode == Option::Some("verify-ca"@) || mode == Option::Some(
        "verify-full"@,
    )
}

pub fn mysql_ssl_required(mode: &Option<String>) -> (r: bool)
    ensures
        r == mysql_ssl_required_spec(view_opt_str(*mode)),
{
    match mode {
        Option::Some(m) => str_eq(m.as_str(), "require") || str_eq(m.as_str(), "verify-ca")
            || str_eq(m.as_str(), "verify-full"),
        Option::None => false,
    }
}

/// The TLS block of a Postgres pool, applied only when the config enables
/// SSL.
#[derive(Debug)]
pub struct PgSslPlan {
    pub mode: PgSslModePlan,
    pub root_cert: Option<String>,
    pub client_cert: Option<String>,
    pub client_key: Option<String>,
}

#[derive(Debug)]
pub struct PgPoolPlan {
    pub host: String,
    pub port: u16,
    pub username: String,
    pub password: String,
    pub database: String,
    pub ssl: Option<PgSslPlan>,
}

#[derive(Debug)]
pub struct MySqlSslPlan {
    pub required: bool,
    pub ca: Option<String>,
}

#[derive(Debug)]
pub struct MySqlPoolPlan {
    pub host: String,
    pub port: u16,
    pub username: String,
    pub password: String,
    pub database: String,
    pub ssl: Option<MySqlSslPlan>,
}

/// What to build the pool from, one variant per dialect.
#[derive(Debug)]
pub enum PoolPlan {
    Postgres(PgPoolPlan),
    MySql(MySqlPoolPlan),
    Sqlite { url: String },
}

/// Plans the pool for a config whose address is already final — for SSH
/// configs, after the tunnel substituted the local listener. Unset fields
/// take the dialect's defaults; only SQLite without a database path is
/// refused.
pub fn connect_pool_plan(config: &ConnectionConfig, password: &Option<String>) -> (r: Result<
    PoolPlan,
    CoreError,
>)
    ensures
        match r {
            Result::Ok(PoolPlan::Postgres(ref p)) => config.db_type == DatabaseType::Postgres
                && p.host@ == (match view_opt_str(config.host) {
                Option::Some(h) => h,
                Option::None => "localhost"@,
            }) && p.port as int == (match config.port {
                Option::Some(pt) => pt as int,
                Option::None => 5432,
            }) && p.username@ == (match view_opt_str(config.username) {
                Option::Some(u) => u,
                Option::None => "postgres"@,
            }) && p.database@ == (match view_opt_str(config.database) {
                Option::Some(d) => d,
                Option::None => "postgres"@,
            }) && p.password@ == (match view_opt_str(*password) {
                Option::Some(w) => w,
                Option::None => Seq::<char>::empty(),
            }) && (config.ssl_enabled <==> p.ssl is Some) && (match p.ssl {
                Option::Some(ref s) => s.mode == pg_ssl_mode_spec(view_opt_str(config.ssl_mode))
                    && view_opt_str(s.root_cert) == view_opt_str(config.ssl_ca_path)
                    && view_opt_str(s.client_cert) == view_opt_str(config.ssl_cert_path)
                    && view_opt_str(s.client_key) == view_opt_str(config.ssl_key_path),
                Option::None => true,
            }),
            Result::Ok(PoolPlan::MySql(ref p)) => config.db_type == DatabaseType::MySql && p.host@
                == (match view_opt_str(config.host) {
                Option::Some(h) => h,
                Option::None => "localhost"@,
            }) && p.port as int == (match config.port {
                Option::Some(pt) => pt as int,
                Option::None => 3306,
            }) && p.username@ == (match view_opt_str(config.username) {
                Option::Some(u) => u,
                Option::None => "root"@,
            }) && p.database@ == (match view_opt_str(config.database) {
                Option::Some(d) => d,
                Option::None => Seq::<char>::empty(),
            }) && p.password@ == (match view_opt_str(*password) {
                Option::Some(w) => w,
                Option::None => Seq::<char>::empty(),
            }) && (config.ssl_enabled <==> p.ssl is Some) && (match p.ssl {
                Option::Some(ref s) => s.required == mysql_ssl_required_spec(
                    view_opt_str(config.ssl_mode),
                ) && view_opt_str(s.ca) == view_opt_str(config.ssl_ca_path),
                Option::None => true,
            }),
            Result::Ok(PoolPlan::Sqlite { ref url }) => config.db_type == DatabaseType::Sqlite
                && config.database is Some && url@ == "sqlite:"@ + view_opt_str(
                config.database,
            ).unwrap(),
            Result::Err(CoreError::Configuration(_)) => config.db_type == DatabaseType::Sqlite
                && config.database is None,
            Result::Err(_) => false,
        },
{
    match config.db_type {
        DatabaseType::Postgres => {
            let host = or_default(&config.host, "localhost");
            let port: u16 = match config.port {
                Option::Some(p) => p,
                Option::None => 5432,
            };
            let username = or_default(&config.username, "postgres");
            let database = or_default(&config.database, "postgres");
            let pw = or_empty(password);
            let ssl: Option<PgSslPlan> = if config.ssl_enabled {
                Option::Some(
                    PgSslPlan {
                        mode: pg_ssl_mode_of(&config.ssl_mode),
                        root_cert: crate::registry::clone_opt_string(&config.ssl_ca_path),
                        client_cert: crate::registry::clone_opt_string(&config.ssl_cert_path),
                        client_key: crate::registry::clone_opt_string(&config.ssl_key_path),
                    },
                )
            } else {
                Option::None
            };
            Result::Ok(
                PoolPlan::Postgres(
                    PgPoolPlan { host, port, username, password: pw, database, ssl },
                ),
            )
        },
        DatabaseType::MySql => {
            let host = or_default(&config.host, "localhost");
            let port: u16 = match config.port {
                Option::Some(p) => p,
                Option::None => 3306,
            };
            let username = or_default(&config.username, "root");
            let database = or_empty(&config.database);
            let pw = or_empty(password);
            let ssl: Option<MySqlSslPlan> = if config.ssl_enabled {
                Option::Some(
                    MySqlSslPlan {
                        required: mysql_ssl_required(&config.ssl_mode),
                        ca: crate::registry::clone_opt_string(&config.ssl_ca_path),
                    },
                )
            } else {
                Option::None
            };
            Result::Ok(
                PoolPlan::MySql(MySqlPoolPlan { host, port, username, password: pw, database, ssl }),
            )
        },
        DatabaseType::Sqlite => {
            match &config.database {
                Option::Some(path) => {
                    let mut url = String::new();
                    url.append("sqlite:");
                    url.append(path.as_str());
                    proof {
                        assert(url@ =~= "sqlite:"@ + path@);
                    }
                    Result::Ok(PoolPlan::Sqlite { url })
                },
                Option::None => {
                    let mut m = String::new();
                    m.append("Path required for SQLite");
                    Result::Err(CoreError::Configuration(m))
                },
            }
        },
    }
}

fn or_empty(o: &Option<String>) -> (r: String)
    ensures
        r@ == (match view_opt_str(*o) {
            Option::Some(s) => s,
            Option::None => Seq::<char>::empty(),
        }),
{
    match o {
        Option::Some(s) => s.clone(),
        Option::None => String::new(),
    }
}

fn or_default(o: &Option<String>, fallback: &str) -> (r: String)
    ensures
        r@ == (match view_opt_str(*o) {
            Option::Some(s) => s,
            Option::None => fallback@,
        }),
{
    match o {
        Option::Some(s) => s.clone(),
        Option::None => {
            let mut out = String::new();
            out.append(fallback);
            proof {
                assert(out@ =~= fallback@);
            }
            out
        },
    }
}

/// Whether a config names everything `test_connection` insists on: host,
/// username and database for the network dialects, the database path for
/// SQLite.
pub open spec fn test_fields_ok(c: ConnectionConfig) -> bool {
    match c.db_type {
        DatabaseType::Sqlite => c.database is Some,
        _ => c.host is Some && c.username is Some && c.database is Some,
    }
}

/// The one-shot URL `test_connection` dials.
pub open spec fn test_url_spec(c: ConnectionConfig, password: Option<Seq<char>>) -> Seq<char> {
    let pass: Seq<char> = match password {
        Option::Some(p) => p,
        Option::None => Seq::empty(),
    };
    match c.db_type {
        DatabaseType::Sqlite => "sqlite:"@ + view_opt_str(c.database).unwrap(),
        DatabaseType::Postgres => "postgres://"@ + view_opt_str(c.username).unwrap() + ":"@ + pass
            + "@"@ + view_opt_str(c.host).unwrap() + ":"@ + dec_str(
            (match c.port {
                Option::Some(p) => p as int,
                Option::None => 5432,
            }) as nat,
        ) + "/"@ + view_opt_str(c.database).unwrap(),
        DatabaseType::MySql => "mysql://"@ + view_opt_str(c.username).unwrap() + ":"@ + pass + "@"@
            + view_opt_str(c.host).unwrap() + ":"@ + dec_str(
            (match c.port {
                Option::Some(p) => p as int,
                Option::None => 3306,
            }) as nat,
        ) + "/"@ + view_opt_str(c.database).unwrap(),
    }
}

/// Builds the URL a connection test dials, after any tunnel substitution.
/// Missing required fields are refused as configuration errors, and the
/// test never touches the registry.
pub fn test_connection_url(config: &ConnectionConfig, password: &Option<String>) -> (r: Result<
    String,
    CoreError,
>)
    ensures
        match r {
            Result::Ok(url) => test_fields_ok(*config) && url@ == test_url_spec(
                *config,
                view_opt_str(*password),
            ),
            Result::Err(CoreError::Configuration(_)) => !test_fields_ok(*config),
            Result::Err(_) => false,
        },
{
    match config.db_type {
        DatabaseType::Sqlite => {
            match &config.database {
                Option::Some(path) => {
                    let mut url = String::new();
                    url.append("sqlite:");
                    url.append(path.as_str());
                    proof {
                        assert(url@ =~= test_url_spec(*config, view_opt_str(*password)));
                    }
                    Result::Ok(url)
                },
                Option::None => Result::Err(
                    CoreError::Configuration(plain("Path required for SQLite")),
                ),
            }
        },
        DatabaseType::Postgres => {
            let host = match &config.host {
                Option::Some(h) => h,
                Option::None => {
                    return Result::Err(
                        CoreError::Configuration(plain("Host required for Postgres")),
                    );
                },
            };
            let user = match &config.username {
                Option::Some(u) => u,
                Option::None => {
                    return Result::Err(
                        CoreError::Configuration(plain("Username required for Postgres")),
                    );
                },
            };
            let db = match &config.database {
                Option::Some(d) => d,
                Option::None => {
                    return Result::Err(
                        CoreError::Configuration(plain("Database name required for Postgres")),
                    );
                },
            };
            let port: u16 = match config.port {
                Option::Some(p) => p,
                Option::None => 5432,
            };
            let mut url = String::new();
            url.append("postgres://");
            url.append(user.as_str());
            url.append(":");
            match password {
                Option::Some(p) => url.append(p.as_str()),
                Option::None => (),
            }
            url.append("@");
            url.append(host.as_str());
            url.append(":");
            push_dec_u64(&mut url, port as u64);
            url.append("/");
            url.append(db.as_str());
            proof {
                assert(url@ =~= test_url_spec(*config, view_opt_str(*password)));
            }
            Result::Ok(url)
        },
        DatabaseType::MySql => {
            let host = match &config.host {
                Option::Some(h) => h,
                Option::None => {
                    return Result::Err(CoreError::Configuration(plain("Host required for MySQL")));
                },
            };
            let user = match &config.username {
                Option::Some(u) => u,
                Option::None => {
                    return Result::Err(
                        CoreError::Configuration(plain("Username required for MySQL")),
                    );
                },
            };
            let db = match &config.database {
                Option::Some(d) => d,
                Option::None => {
                    return Result::Err(
                        CoreError::Configuration(plain("Database name required for MySQL")),
                    );
                },
            };
            let port: u16 = match config.port {
                Option::Some(p) => p,
                Option::None => 3306,
            };
            let mut url = String::new();
            url.append("mysql://");
            url.append(user.as_str());
            url.append(":");
            match password {
                Option::Some(p) => url.append(p.as_str()),
                Option::None => (),
            }
            url.append("@");
            url.append(host.as_str());
            url.append(":");
            push_dec_u64(&mut url, port as u64);
            url.append("/");
            url.append(db.as_str());
            proof {
                assert(url@ =~= test_url_spec(*config, view_opt_str(*password)));
            }
            Result::Ok(url)
        },
    }
}

fn plain(text: &str) -> (r: String)
    ensures
        r@ == text@,
{
    let mut out = String::new();
    out.append(text);
    proof {
        assert(out@ =~= text@);
    }
    out
}

} // verus!
