//! The connection registry: configs, passwords, per-dialect pool handles and
//! tunnel records keyed by connection id, plus the set of in-flight
//! streaming queries. The registry is the bookkeeping half of connect,
//! switch and disconnect; building pools and tunnels is transport work that
//! happens outside, and its outcome is recorded here.
use vstd::prelude::*;

use crate::idmap::IdMap;
use crate::sqlbuild::view_opt_str;
use crate::types::{ConnectionConfig, CoreError, DatabaseType};

verus! {

/// An opaque ticket for a live pool owned by the transport layer.
#[derive(Clone, Copy, Debug, PartialEq, Eq, Structural)]
pub struct PoolHandle {
    pub slot: u64,
}

/// The record of a live SSH tunnel: while it exists, a forwarder listens on
/// `local_port` and carries every accepted stream to the remote database.
#[derive(Clone, Copy, Debug, PartialEq, Eq, Structural)]
pub struct TunnelInfo {
    pub local_port: u16,
}

/// Clones an optional string; the contract speaks of the character
/// sequences, which is what every caller needs.
pub fn clone_opt_string(o: &Option<String>) -> (r: Option<String>)
    ensures
        view_opt_str(r) == view_opt_str(*o),
{
    match o {
        Option::Some(s) => Option::Some(s.clone()),
        Option::None => Option::None,
    }
}

/// Field-for-field agreement of two configs, at the level of character
/// sequences.
pub open spec fn config_matches_except_database(a: ConnectionConfig, b: ConnectionConfig) -> bool {
    &&& a.id == b.id
    &&& a.name@ == b.name@
    &&& a.db_type == b.db_type
    &&& view_opt_str(a.host) == view_opt_str(b.host)
    &&& a.port == b.port
    &&& view_opt_str(a.username) == view_opt_str(b.username)
    &&& a.ssl_enabled == b.ssl_enabled
    &&& view_opt_str(a.ssl_mode) == view_opt_str(b.ssl_mode)
    &&& view_opt_str(a.ssl_ca_path) == view_opt_str(b.ssl_ca_path)
    &&& view_opt_str(a.ssl_cert_path) == view_opt_str(b.ssl_cert_path)
    &&& view_opt_str(a.ssl_key_path) == view_opt_str(b.ssl_key_path)
    &&& a.ssh_enabled == b.ssh_enabled
    &&& view_opt_str(a.ssh_host) == view_opt_str(b.ssh_host)
    &&& a.ssh_port == b.ssh_port
    &&& view_opt_str(a.ssh_username) == view_opt_str(b.ssh_username)
    &&& view_opt_str(a.ssh_auth_method) == view_opt_str(b.ssh_auth_method)
    &&& view_opt_str(a.ssh_password) == view_opt_str(b.ssh_password)
    &&& view_opt_str(a.ssh_private_key_path) == view_opt_str(b.ssh_private_key_path)
    &&& view_opt_str(a.environment) == view_opt_str(b.environment)
    &&& view_opt_str(a.color_tag) == view_opt_str(b.color_tag)
}

pub open spec fn config_matches(a: ConnectionConfig, b: ConnectionConfig) -> bool {
    config_matches_except_database(a, b) && view_opt_str(a.database) == view_opt_str(b.database)
}

/// Clones a config field by field.
pub fn clone_config(c: &ConnectionConfig) -> (r: ConnectionConfig)
    ensures
        config_matches(r, *c),
{
    ConnectionConfig {
        id: c.id,
        name: c.name.clone(),
        db_type: c.db_type,
        host: clone_opt_string(&c.host),
        port: c.port,
        username: clone_opt_string(&c.username),
        database: clone_opt_string(&c.database),
        ssl_enabled: c.ssl_enabled,
        ssl_mode: clone_opt_string(&c.ssl_mode),
        ssl_ca_path: clone_opt_string(&c.ssl_ca_path),
        ssl_cert_path: clone_opt_string(&c.ssl_cert_path),
        ssl_key_path: clone_opt_string(&c.ssl_key_path),
        ssh_enabled: c.ssh_enabled,
        ssh_host: clone_opt_string(&c.ssh_host),
        ssh_port: c.ssh_port,
        ssh_username: clone_opt_string(&c.ssh_username),
        ssh_auth_method: clone_opt_string(&c.ssh_auth_method),
        ssh_password: clone_opt_string(&c.ssh_password),
        ssh_private_key_path: clone_opt_string(&c.ssh_private_key_path),
        environment: clone_opt_string(&c.environment),
        color_tag: clone_opt_string(&c.color_tag),
    }
}

/// The registry itself. One record per live connection id; a pool handle
/// lives in exactly one of the three dialect tables.
pub struct ConnectionManager {
    postgres_pools: IdMap<PoolHandle>,
    mysql_pools: IdMap<PoolHandle>,
    sqlite_pools: IdMap<PoolHandle>,
    configs: IdMap<ConnectionConfig>,
    passwords: IdMap<Option<String>>,
    tunnels: IdMap<TunnelInfo>,
}

impl ConnectionManager {
    pub closed spec fn postgres_view(&self) -> Map<u128, PoolHandle> {
        self.postgres_pools@
    }

    pub closed spec fn mysql_view(&self) -> Map<u128, PoolHandle> {
        self.mysql_pools@
    }

    pub closed spec fn sqlite_view(&self) -> Map<u128, PoolHandle> {
        self.sqlite_pools@
    }

    pub closed spec fn configs_view(&self) -> Map<u128, ConnectionConfig> {
        self.configs@
    }

    pub closed spec fn passwords_view(&self) -> Map<u128, Option<String>> {
        self.passwords@
    }

    pub closed spec fn tunnels_view(&self) -> Map<u128, TunnelInfo> {
        self.tunnels@
    }

    pub closed spec fn wf(&self) -> bool {
        &&& self.postgres_pools.wf()
        &&& self.mysql_pools.wf()
        &&& self.sqlite_pools.wf()
        &&& self.configs.wf()
        &&& self.passwords.wf()
        &&& self.tunnels.wf()
    }

    pub fn new() -> (r: Self)
        ensures
            r.wf(),
            r.postgres_view() == Map::<u128, PoolHandle>::empty(),
            r.mysql_view() == Map::<u128, PoolHandle>::empty(),
            r.sqlite_view() == Map::<u128, PoolHandle>::empty(),
            r.configs_view() == Map::<u128, ConnectionConfig>::empty(),
            r.passwords_view() == Map::<u128, Option<String>>::empty(),
            r.tunnels_view() == Map::<u128, TunnelInfo>::empty(),
    {
        ConnectionManager {
            postgres_pools: IdMap::new(),
            mysql_pools: IdMap::new(),
            sqlite_pools: IdMap::new(),
            configs: IdMap::new(),
            passwords: IdMap::new(),
            tunnels: IdMap::new(),
        }
    }

    /// Records config and password at the start of a connect attempt, before
    /// any transport work; they stay even if the attempt then fails.
    pub fn record_attempt(&mut self, config: ConnectionConfig, password: Option<String>)
        requires
            old(self).wf(),
        ensures
            final(self).wf(),
            final(self).configs_view() == old(self).configs_view().insert(config.id, config),
            final(self).passwords_view() == old(self).passwords_view().insert(
                config.id,
                password,
            ),
            final(self).postgres_view() == old(self).postgres_view(),
            final(self).mysql_view() == old(self).mysql_view(),
            final(self).sqlite_view() == old(self).sqlite_view(),
            final(self).tunnels_view() == old(self).tunnels_view(),
    {
        let id = config.id;
        self.configs.insert(id, config);
        self.passwords.insert(id, password);
    }

    /// Records the outcome of a successful connect or database switch: the
    /// pool handle enters the table of the config's dialect and leaves the
    /// other two, and a freshly built tunnel is recorded. Afterwards exactly
    /// one pool table holds the id; with SSH enabled the tunnels table holds
    /// it too; config and password are set.
    pub fn complete_connect(
        &mut self,
        config: ConnectionConfig,
        password: Option<String>,
        pool: PoolHandle,
        tunnel: Option<TunnelInfo>,
    )
        requires
            old(self).wf(),
            config.ssh_enabled ==> tunnel.is_some(),
        ensures
            final(self).wf(),
            final(self).configs_view() == old(self).configs_view().insert(config.id, config),
            final(self).passwords_view() == old(self).passwords_view().insert(
                config.id,
                password,
            ),
            final(self).postgres_view() == (if config.db_type == DatabaseType::Postgres {
                old(self).postgres_view().insert(config.id, pool)
            } else {
                old(self).postgres_view().remove(config.id)
            }),
            final(self).mysql_view() == (if config.db_type == DatabaseType::MySql {
                old(self).mysql_view().insert(config.id, pool)
            } else {
                old(self).mysql_view().remove(config.id)
            }),
            final(self).sqlite_view() == (if config.db_type == DatabaseType::Sqlite {
                old(self).sqlite_view().insert(config.id, pool)
            } else {
                old(self).sqlite_view().remove(config.id)
            }),
            final(self).tunnels_view() == (match tunnel {
                Option::Some(t) => old(self).tunnels_view().insert(config.id, t),
                Option::None => old(self).tunnels_view(),
            }),
            final(self).postgres_view().contains_key(config.id) <==> config.db_type
                == DatabaseType::Postgres,
            final(self).mysql_view().contains_key(config.id) <==> config.db_type
                == DatabaseType::MySql,
            final(self).sqlite_view().contains_key(config.id) <==> config.db_type
                == DatabaseType::Sqlite,
            config.ssh_enabled ==> final(self).tunnels_view().contains_key(config.id),
            final(self).configs_view().contains_key(config.id),
            final(self).passwords_view().contains_key(config.id),
    {
        let id = config.id;
        let db_type = config.db_type;
        self.configs.insert(id, config);
        self.passwords.insert(id, password);
        match db_type {
            DatabaseType::Postgres => {
                self.postgres_pools.insert(id, pool);
                let _ = self.mysql_pools.remove(id);
                let _ = self.sqlite_pools.remove(id);
            },
            DatabaseType::MySql => {
                self.mysql_pools.insert(id, pool);
                let _ = self.postgres_pools.remove(id);
                let _ = self.sqlite_pools.remove(id);
            },
            DatabaseType::Sqlite => {
                self.sqlite_pools.insert(id, pool);
                let _ = self.postgres_pools.remove(id);
                let _ = self.mysql_pools.remove(id);
            },
        }
        if let Option::Some(t) = tunnel {
            self.tunnels.insert(id, t);
        }
    }

    /// Removes every trace of the id: config, password, whichever pool table
    /// holds it, and the tunnel record. Idempotent. The caller aborts the
    /// tunnel forwarder for the returned record.
    pub fn disconnect(&mut self, id: u128) -> (tunnel: Option<TunnelInfo>)
        requires
            old(self).wf(),
        ensures
            final(self).wf(),
            final(self).configs_view() == old(self).configs_view().remove(id),
            final(self).passwords_view() == old(self).passwords_view().remove(id),
            final(self).postgres_view() == old(self).postgres_view().remove(id),
            final(self).mysql_view() == old(self).mysql_view().remove(id),
            final(self).sqlite_view() == old(self).sqlite_view().remove(id),
            final(self).tunnels_view() == old(self).tunnels_view().remove(id),
            !final(self).configs_view().contains_key(id),
            !final(self).passwords_view().contains_key(id),
            !final(self).postgres_view().contains_key(id),
            !final(self).mysql_view().contains_key(id),
            !final(self).sqlite_view().contains_key(id),
            !final(self).tunnels_view().contains_key(id),
            tunnel == (if old(self).tunnels_view().contains_key(id) {
                Option::Some(old(self).tunnels_view()[id])
            } else {
                Option::None::<TunnelInfo>
            }),
    {
        let _ = self.configs.remove(id);
        let _ = self.passwords.remove(id);
        let _ = self.postgres_pools.remove(id);
        let _ = self.mysql_pools.remove(id);
        let _ = self.sqlite_pools.remove(id);
        self.tunnels.remove(id)
    }

    /// Which dialect's pool table holds the id, probing Postgres, then
    /// MySQL, then SQLite.
    pub fn find_dialect(&self, id: u128) -> (r: Option<DatabaseType>)
        requires
            self.wf(),
        ensures
            match r {
                Option::Some(DatabaseType::Postgres) => self.postgres_view().contains_key(id),
                Option::Some(DatabaseType::MySql) => !self.postgres_view().contains_key(id)
                    && self.mysql_view().contains_key(id),
                Option::Some(DatabaseType::Sqlite) => !self.postgres_view().contains_key(id)
                    && !self.mysql_view().contains_key(id) && self.sqlite_view().contains_key(id),
                Option::None => !self.postgres_view().contains_key(id)
                    && !self.mysql_view().contains_key(id) && !self.sqlite_view().contains_key(
                    id,
                ),
            },
    {
        if self.postgres_pools.contains_key(id) {
            Option::Some(DatabaseType::Postgres)
        } else if self.mysql_pools.contains_key(id) {
            Option::Some(DatabaseType::MySql)
        } else if self.sqlite_pools.contains_key(id) {
            Option::Some(DatabaseType::Sqlite)
        } else {
            Option::None
        }
    }

    pub fn get_postgres_pools(&self) -> (r: &IdMap<PoolHandle>)
        requires
            self.wf(),
        ensures
            r@ == self.postgres_view(),
            r.wf(),
    {
        &self.postgres_pools
    }

    pub fn get_mysql_pools(&self) -> (r: &IdMap<PoolHandle>)
        requires
            self.wf(),
        ensures
            r@ == self.mysql_view(),
            r.wf(),
    {
        &self.mysql_pools
    }

    pub fn get_sqlite_pools(&self) -> (r: &IdMap<PoolHandle>)
        requires
            self.wf(),
        ensures
            r@ == self.sqlite_view(),
            r.wf(),
    {
        &self.sqlite_pools
    }

    pub fn get_tunnels(&self) -> (r: &IdMap<TunnelInfo>)
        requires
            self.wf(),
        ensures
            r@ == self.tunnels_view(),
            r.wf(),
    {
        &self.tunnels
    }

    /// The decision half of `switch_database`: yields the stored config with
    /// its database name replaced, and the stored password, ready for a
    /// fresh pool build. An unknown id is refused; SQLite rejects switching
    /// within the same file connection.
    pub fn switch_database_plan(&self, id: u128, db_name: &str) -> (r: Result<
        (ConnectionConfig, Option<String>),
        CoreError,
    >)
        requires
            self.wf(),
        ensures
            match r {
                Result::Ok((cfg, pw)) => self.configs_view().contains_key(id)
                    && self.configs_view()[id].db_type != DatabaseType::Sqlite
                    && config_matches_except_database(cfg, self.configs_view()[id])
                    && view_opt_str(cfg.database) == Option::Some(db_name@) && view_opt_str(pw) == (
                if self.passwords_view().contains_key(id) {
                    view_opt_str(self.passwords_view()[id])
                } else {
                    Option::None
                }),
                Result::Err(CoreError::NotConnected) => !self.configs_view().contains_key(id),
                Result::Err(CoreError::Configuration(_)) => self.configs_view().contains_key(id)
                    && self.configs_view()[id].db_type == DatabaseType::Sqlite,
                Result::Err(_) => false,
            },
    {
        match self.configs.get(id) {
            Option::None => Result::Err(CoreError::NotConnected),
            Option::Some(stored) => {
                if let DatabaseType::Sqlite = stored.db_type {
                    let mut m = String::new();
                    m.append(
                        "SQLite does not support switching databases within the same file connection",
                    );
                    return Result::Err(CoreError::Configuration(m));
                }
                let mut cfg = clone_config(stored);
                cfg.database = Option::Some(db_name.to_owned());
                let pw = match self.passwords.get(id) {
                    Option::Some(p) => clone_opt_string(p),
                    Option::None => Option::None,
                };
                Result::Ok((cfg, pw))
            },
        }
    }
}

/// The set of in-flight streaming queries, keyed by query id. Cancelling
/// removes the id; the streaming loop consults the token outside and the
/// absence of the id is what `cancel_query` guarantees.
pub struct ActiveQueries {
    queries: IdMap<bool>,
}

impl ActiveQueries {
    pub closed spec fn view(&self) -> Map<u128, bool> {
        self.queries@
    }

    pub closed spec fn wf(&self) -> bool {
        self.queries.wf()
    }

    pub fn new() -> (r: Self)
        ensures
            r.wf(),
            r@ == Map::<u128, bool>::empty(),
    {
        ActiveQueries { queries: IdMap::new() }
    }

    /// Registers a streaming query as in flight.
    pub fn register(&mut self, query_id: u128)
        requires
            old(self).wf(),
        ensures
            final(self).wf(),
            final(self)@ == old(self)@.insert(query_id, true),
            final(self)@.contains_key(query_id),
    {
        self.queries.insert(query_id, true);
    }

    /// Cancels a streaming query: afterwards the id is no longer active,
    /// so no completion is owed for it. Unknown ids are a no-op.
    pub fn cancel_query(&mut self, query_id: u128) -> (was_active: bool)
        requires
            old(self).wf(),
        ensures
            final(self).wf(),
            final(self)@ == old(self)@.remove(query_id),
            !final(self)@.contains_key(query_id),
            was_active == old(self)@.contains_key(query_id),
    {
        self.queries.remove(query_id).is_some()
    }

    /// Removes a finished query; same shape as cancellation, recorded
    /// separately because completion was (or will be) emitted.
    pub fn finish(&mut self, query_id: u128)
        requires
            old(self).wf(),
        ensures
            final(self).wf(),
            final(self)@ == old(self)@.remove(query_id),
            !final(self)@.contains_key(query_id),
    {
        let _ = self.queries.remove(query_id);
    }

    pub fn is_active(&self, query_id: u128) -> (r: bool)
        ensures
            r == self@.contains_key(query_id),
    {
        self.queries.contains_key(query_id)
    }
}

} // verus!
