//! SSH tunnel planning: which endpoint to dial, how to authenticate, where
//! the forwarded connection must go, and how the config is rewritten to
//! point at the local listener. The TCP and SSH traffic itself runs
//! outside; every address, port and path it uses is decided here. The
//! remote port defaults to the dialect's standard port, and is never
//! guessed for SQLite.
use vstd::prelude::*;

use crate::sqlbuild::view_opt_str;
use crate::types::{ConnectionConfig, CoreError, DatabaseType};

verus! {

pub open spec fn contains_char(s: Seq<char>, c: char) -> bool {
    exists|i: int| 0 <= i < s.len() && s[i] == c
}

fn find_char(s: &str, c: char) -> (r: bool)
    ensures
        r == contains_char(s@, c),
{
    let n = s.unicode_len();
    let mut i: usize = 0;
    while i < n
        invariant
            i <= n,
            n == s@.len(),
            forall|j: int| 0 <= j < i ==> s@[j] != c,
        decreases n - i,
    {
        if s.get_char(i) == c {
            return true;
        }
        i = i + 1;
    }
    false
}

/// Where a private key path resolves to, against the user's home directory
/// (given without a trailing separator): absolute paths are kept, `~/` is
/// expanded, and a bare file name is looked for under `.ssh`.
pub open spec fn resolved_key_path(p: Seq<char>, home: Option<Seq<char>>) -> Seq<char> {
    if p.len() > 0 && p[0] == '/' {
        p
    } else {
        match home {
            Option::None => p,
            Option::Some(h) => if crate::text::has_prefix(p, "~/"@) {
                h + "/"@ + p.skip(2)
            } else if !contains_char(p, '/') && !contains_char(p, '\\') {
                h + "/.ssh/"@ + p
            } else {
                p
            },
        }
    }
}

/// Resolves a private key path against the home directory.
pub fn resolve_key_path(key_path: &str, home: Option<&str>) -> (r: String)
    ensures
        r@ == resolved_key_path(key_path@, match home {
            Option::Some(h) => Option::Some(h@),
            Option::None => Option::None,
        }),
{
    let n = key_path.unicode_len();
    let absolute = n > 0 && key_path.get_char(0) == '/';
    if absolute {
        return key_path.to_owned();
    }
    match home {
        Option::None => key_path.to_owned(),
        Option::Some(h) => {
            if crate::text::starts_with(key_path, "~/") {
                proof {
                    reveal_strlit("~/");
                }
                let rest = key_path.substring_char(2, n);
                let mut out = String::new();
                out.append(h);
                out.append("/");
                out.append(rest);
                proof {
                    assert(key_path@.subrange(2, n as int) =~= key_path@.skip(2));
                    assert(out@ =~= h@ + "/"@ + key_path@.skip(2));
                }
                out
            } else if !find_char(key_path, '/') && !find_char(key_path, '\\') {
                let mut out = String::new();
                out.append(h);
                out.append("/.ssh/");
                out.append(key_path);
                proof {
                    assert(out@ =~= h@ + "/.ssh/"@ + key_path@);
                }
                out
            } else {
                key_path.to_owned()
            }
        },
    }
}

/// The sibling public key of a private key file: the same path with `.pub`
/// appended.
pub fn pubkey_path_of(private_key_path: &str) -> (r: String)
    ensures
        r@ == private_key_path@ + ".pub"@,
{
    let mut out = String::new();
    out.append(private_key_path);
    out.append(".pub");
    proof {
        assert(out@ =~= private_key_path@ + ".pub"@);
    }
    out
}

/// How the SSH session authenticates.
#[derive(Debug)]
pub enum SshAuth {
    Password { password: String },
    KeyFile { path: String },
}

/// Everything the forwarder needs: the SSH endpoint and credentials, and
/// the database address to reach from the SSH host.
#[derive(Debug)]
pub struct TunnelPlan {
    pub ssh_host: String,
    pub ssh_port: u16,
    pub username: String,
    pub auth: SshAuth,
    pub remote_host: String,
    pub remote_port: u16,
}

pub open spec fn ssh_fields_ok(c: ConnectionConfig) -> bool {
    c.ssh_host is Some && c.ssh_username is Some
}

pub open spec fn ssh_auth_ok(c: ConnectionConfig) -> bool {
    if view_opt_str(c.ssh_auth_method) == Option::Some("password"@) {
        c.ssh_password is Some
    } else {
        c.ssh_private_key_path is Some
    }
}

/// The remote database port may only be defaulted for dialects that have a
/// standard port; SQLite has none.
pub open spec fn tunnel_port_ok(c: ConnectionConfig) -> bool {
    c.port is Some || c.db_type != DatabaseType::Sqlite
}

pub open spec fn tunnel_plan_ok(c: ConnectionConfig) -> bool {
    ssh_fields_ok(c) && ssh_auth_ok(c) && tunnel_port_ok(c)
}

pub open spec fn expected_remote_port(c: ConnectionConfig) -> int {
    match c.port {
        Option::Some(p) => p as int,
        Option::None => if c.db_type == DatabaseType::Postgres {
            5432
        } else {
            3306
        },
    }
}

/// Plans the tunnel for an SSH-enabled config: the SSH endpoint with port
/// 22 by default, the credentials the auth method names, and the database
/// address as seen from the SSH host, `127.0.0.1` when the config names no
/// host. Missing fields are refused as configuration errors.
pub fn tunnel_plan(config: &ConnectionConfig) -> (r: Result<TunnelPlan, CoreError>)
    ensures
        match r {
            Result::Ok(p) => tunnel_plan_ok(*config) && p.ssh_host@ == view_opt_str(
                config.ssh_host,
            ).unwrap() && p.ssh_port as int == (match config.ssh_port {
                Option::Some(sp) => sp as int,
                Option::None => 22,
            }) && p.username@ == view_opt_str(config.ssh_username).unwrap() && (match p.auth {
                SshAuth::Password { ref password } => view_opt_str(config.ssh_auth_method)
                    == Option::Some("password"@) && Option::Some(password@) == view_opt_str(
                    config.ssh_password,
                ),
                SshAuth::KeyFile { ref path } => view_opt_str(config.ssh_auth_method)
                    != Option::Some("password"@) && Option::Some(path@) == view_opt_str(
                    config.ssh_private_key_path,
                ),
            }) && p.remote_host@ == (match view_opt_str(config.host) {
                Option::Some(h) => h,
                Option::None => "127.0.0.1"@,
            }) && p.remote_port as int == expected_remote_port(*config),
            Result::Err(CoreError::Configuration(_)) => !tunnel_plan_ok(*config),
            Result::Err(_) => false,
        },
{
    let ssh_host: String = match &config.ssh_host {
        Option::Some(h) => h.clone(),
        Option::None => {
            return Result::Err(CoreError::Configuration(msg("SSH host missing")));
        },
    };
    let ssh_port: u16 = match config.ssh_port {
        Option::Some(p) => p,
        Option::None => 22,
    };
    let username: String = match &config.ssh_username {
        Option::Some(u) => u.clone(),
        Option::None => {
            return Result::Err(CoreError::Configuration(msg("SSH username missing")));
        },
    };
    let is_password = match &config.ssh_auth_method {
        Option::Some(m) => crate::text::str_eq(m.as_str(), "password"),
        Option::None => false,
    };
    let auth: SshAuth = if is_password {
        match &config.ssh_password {
            Option::Some(p) => SshAuth::Password { password: p.clone() },
            Option::None => {
                return Result::Err(CoreError::Configuration(msg("SSH password missing")));
            },
        }
    } else {
        match &config.ssh_private_key_path {
            Option::Some(p) => SshAuth::KeyFile { path: p.clone() },
            Option::None => {
                return Result::Err(
                    CoreError::Configuration(msg("Unsupported or missing SSH auth method")),
                );
            },
        }
    };
    let remote_host: String = match &config.host {
        Option::Some(h) => h.clone(),
        Option::None => msg("127.0.0.1"),
    };
    let remote_port: u16 = match config.port {
        Option::Some(p) => p,
        Option::None => {
            match config.db_type {
                DatabaseType::Postgres => 5432,
                DatabaseType::MySql => 3306,
                DatabaseType::Sqlite => {
                    return Result::Err(
                        CoreError::Configuration(
                            msg("SQLite over SSH needs an explicit remote port"),
                        ),
                    );
                },
            }
        },
    };
    Result::Ok(TunnelPlan { ssh_host, ssh_port, username, auth, remote_host, remote_port })
}

fn msg(text: &str) -> (r: String)
    ensures
        r@ == text@,
{
    let mut out = String::new();
    out.append(text);
    proof {
        assert(out@ =~= text@);
    }
    out
}

/// The config as the pool builder must see it once a tunnel listens
/// locally: the address swapped for `127.0.0.1` and the listener's port,
/// everything else kept.
pub fn with_local_tunnel(config: &ConnectionConfig, local_port: u16) -> (r: ConnectionConfig)
    ensures
        view_opt_str(r.host) == Option::Some("127.0.0.1"@),
        r.port == Option::Some(local_port),
        r.id == config.id,
        r.name@ == config.name@,
        r.db_type == config.db_type,
        view_opt_str(r.username) == view_opt_str(config.username),
        view_opt_str(r.database) == view_opt_str(config.database),
        r.ssl_enabled == config.ssl_enabled,
        view_opt_str(r.ssl_mode) == view_opt_str(config.ssl_mode),
        view_opt_str(r.ssl_ca_path) == view_opt_str(config.ssl_ca_path),
        view_opt_str(r.ssl_cert_path) == view_opt_str(config.ssl_cert_path),
        view_opt_str(r.ssl_key_path) == view_opt_str(config.ssl_key_path),
        r.ssh_enabled == config.ssh_enabled,
        view_opt_str(r.ssh_host) == view_opt_str(config.ssh_host),
        r.ssh_port == config.ssh_port,
        view_opt_str(r.ssh_username) == view_opt_str(config.ssh_username),
        view_opt_str(r.ssh_auth_method) == view_opt_str(config.ssh_auth_method),
        view_opt_str(r.ssh_password) == view_opt_str(config.ssh_password),
        view_opt_str(r.ssh_private_key_path) == view_opt_str(config.ssh_private_key_path),
        view_opt_str(r.environment) == view_opt_str(config.environment),
        view_opt_str(r.color_tag) == view_opt_str(config.color_tag),
    {
    let mut r = crate::registry::clone_config(config);
    r.host = Option::Some(msg("127.0.0.1"));
    r.port = Option::Some(local_port);
    r
}

} // verus!
