//! The data model shared by the registry, the executors and the builders:
//! dialect tags, connection descriptors, filters, query results and the
//! JSON-friendly scalar domain that every row value is mapped into.
use vstd::prelude::*;

verus! {

/// The three database dialects the client speaks.
#[derive(Clone, Copy, Debug, PartialEq, Eq, Structural)]
pub enum DatabaseType {
    Postgres,
    MySql,
    Sqlite,
}

impl DatabaseType {
    /// The dialect's standard TCP port, used when a config leaves the port
    /// unset. SQLite is file-backed and has none.
    pub fn default_port(&self) -> (r: Option<u16>)
        ensures
            r == (match *self {
                DatabaseType::Postgres => Some(5432u16),
                DatabaseType::MySql => Some(3306u16),
                DatabaseType::Sqlite => None::<u16>,
            }),
    {
        match *self {
            DatabaseType::Postgres => Some(5432),
            DatabaseType::MySql => Some(3306),
            DatabaseType::Sqlite => None,
        }
    }
}

/// An immutable connection descriptor. The id is a caller-assigned 128-bit
/// identifier, stable across reconnects. When `ssh_enabled`, `host` and
/// `port` name the database as reachable from the SSH host.
#[derive(Clone, Debug)]
pub struct ConnectionConfig {
    pub id: u128,
    pub name: String,
    pub db_type: DatabaseType,
    pub host: Option<String>,
    pub port: Option<u16>,
    pub username: Option<String>,
    pub database: Option<String>,
    pub ssl_enabled: bool,
    pub ssl_mode: Option<String>,
    pub ssl_ca_path: Option<String>,
    pub ssl_cert_path: Option<String>,
    pub ssl_key_path: Option<String>,
    pub ssh_enabled: bool,
    pub ssh_host: Option<String>,
    pub ssh_port: Option<u16>,
    pub ssh_username: Option<String>,
    pub ssh_auth_method: Option<String>,
    pub ssh_password: Option<String>,
    pub ssh_private_key_path: Option<String>,
    pub environment: Option<String>,
    pub color_tag: Option<String>,
}

/// One structured filter over a table column. Only enabled filters
/// participate in WHERE composition.
#[derive(Clone, Debug)]
pub struct FilterConfig {
    pub id: String,
    pub column: String,
    pub operator: String,
    pub value: String,
    pub enabled: bool,
}

/// The error taxonomy of the core.
#[derive(Clone, Debug)]
pub enum CoreError {
    /// A required configuration field is missing or an option is unsupported.
    Configuration(String),
    /// The SSH session could not be established or authenticated.
    TunnelSetup(String),
    /// Building a pool or pinging the database failed.
    Connection(String),
    /// No registry holds the given connection id.
    NotConnected,
    /// The driver reported a SQL error.
    Query(String),
    /// A streaming import or export failed.
    ImportExport(String),
    /// The text-to-SQL gateway returned a failure.
    AiGateway(String),
}

impl CoreError {
    pub open spec fn message_spec(&self) -> Seq<char> {
        match *self {
            CoreError::Configuration(ref s) => "Configuration error: "@ + s@,
            CoreError::TunnelSetup(ref s) => "Tunnel error: "@ + s@,
            CoreError::Connection(ref s) => "Connection error: "@ + s@,
            CoreError::NotConnected => "Connection not found"@,
            CoreError::Query(ref s) => "Query error: "@ + s@,
            CoreError::ImportExport(ref s) => "Import/export error: "@ + s@,
            CoreError::AiGateway(ref s) => "AI gateway error: "@ + s@,
        }
    }

    /// A human-readable rendering of the error.
    pub fn message(&self) -> (r: String)
        ensures
            r@ == self.message_spec(),
    {
        match self {
            CoreError::Configuration(s) => {
                let mut out = String::new();
                out.append("Configuration error: ");
                out.append(s.as_str());
                proof {
                    assert(Seq::<char>::empty() + "Configuration error: "@ + s@
                        =~= self.message_spec());
                }
                out
            },
            CoreError::TunnelSetup(s) => {
                let mut out = String::new();
                out.append("Tunnel error: ");
                out.append(s.as_str());
                proof {
                    assert(Seq::<char>::empty() + "Tunnel error: "@ + s@ =~= self.message_spec());
                }
                out
            },
            CoreError::Connection(s) => {
                let mut out = String::new();
                out.append("Connection error: ");
                out.append(s.as_str());
                proof {
                    assert(Seq::<char>::empty() + "Connection error: "@ + s@
                        =~= self.message_spec());
                }
                out
            },
            CoreError::NotConnected => {
                let mut out = String::new();
                out.append("Connection not found");
                proof {
                    assert(Seq::<char>::empty() + "Connection not found"@ =~= self.message_spec());
                }
                out
            },
            CoreError::Query(s) => {
                let mut out = String::new();
                out.append("Query error: ");
                out.append(s.as_str());
                proof {
                    assert(Seq::<char>::empty() + "Query error: "@ + s@ =~= self.message_spec());
                }
                out
            },
            CoreError::ImportExport(s) => {
                let mut out = String::new();
                out.append("Import/export error: ");
                out.append(s.as_str());
                proof {
                    assert(Seq::<char>::empty() + "Import/export error: "@ + s@
                        =~= self.message_spec());
                }
                out
            },
            CoreError::AiGateway(s) => {
                let mut out = String::new();
                out.append("AI gateway error: ");
                out.append(s.as_str());
                proof {
                    assert(Seq::<char>::empty() + "AI gateway error: "@ + s@
                        =~= self.message_spec());
                }
                out
            },
        }
    }
}

/// A JSON scalar as the UI receives it. Numbers that the drivers hand over
/// as floating point arrive here already rendered in their decimal form,
/// carried by `FloatNum`; the mapper never computes on them.
#[derive(Clone, Debug, PartialEq)]
pub enum JsonScalar {
    Null,
    Bool(bool),
    IntNum(i64),
    UintNum(u64),
    FloatNum(String),
    Str(String),
}

/// The mathematical shadow of a `JsonScalar`.
#[verifier::ext_equal]
pub ghost enum JsonVal {
    Null,
    Bool(bool),
    Int(int),
    Uint(int),
    Float(Seq<char>),
    Str(Seq<char>),
}

impl View for JsonScalar {
    type V = JsonVal;

    open spec fn view(&self) -> JsonVal {
        match *self {
            JsonScalar::Null => JsonVal::Null,
            JsonScalar::Bool(b) => JsonVal::Bool(b),
            JsonScalar::IntNum(n) => JsonVal::Int(n as int),
            JsonScalar::UintNum(n) => JsonVal::Uint(n as int),
            JsonScalar::FloatNum(ref s) => JsonVal::Float(s@),
            JsonScalar::Str(ref s) => JsonVal::Str(s@),
        }
    }
}

impl DeepView for JsonScalar {
    type V = JsonVal;

    open spec fn deep_view(&self) -> JsonVal {
        self.view()
    }
}

/// The result of a one-shot query.
#[derive(Debug)]
pub struct QueryResult {
    pub columns: Vec<String>,
    pub rows: Vec<Vec<JsonScalar>>,
    pub affected_rows: u64,
    pub execution_time_ms: u64,
    pub total_count: Option<u64>,
    pub page: Option<u32>,
    pub page_size: Option<u32>,
}

/// Size and comment summary for one table.
#[derive(Debug, Clone)]
pub struct TableMetadata {
    pub total_size: Option<String>,
    pub data_size: Option<String>,
    pub index_size: Option<String>,
    pub comment: Option<String>,
}

#[derive(Debug, Clone)]
pub struct TableColumnStructure {
    pub name: String,
    pub data_type: String,
    pub is_nullable: bool,
    pub default_value: Option<String>,
    pub is_primary_key: bool,
    pub comment: Option<String>,
}

#[derive(Debug, Clone)]
pub struct TableIndexStructure {
    pub name: String,
    pub columns: Vec<String>,
    pub is_unique: bool,
    pub index_type: String,
}

#[derive(Debug, Clone)]
pub struct TableConstraintStructure {
    pub name: String,
    pub constraint_type: String,
    pub definition: String,
}

#[derive(Debug, Clone)]
pub struct TableStructure {
    pub columns: Vec<TableColumnStructure>,
    pub indexes: Vec<TableIndexStructure>,
    pub constraints: Vec<TableConstraintStructure>,
}

#[derive(Debug, Clone, PartialEq, Eq, Structural)]
pub enum SidebarItemType {
    Table,
    View,
    Function,
    Procedure,
}

#[derive(Debug, Clone)]
pub struct SidebarItem {
    pub name: String,
    pub item_type: SidebarItemType,
    pub schema: Option<String>,
}

/// Sent exactly once before any batch of a streaming query.
#[derive(Debug, Clone, PartialEq)]
pub struct StreamingMetadata {
    pub query_id: u128,
    pub columns: Vec<String>,
}

/// Zero or more per query, each carrying at most the batch bound of rows.
#[derive(Debug, Clone, PartialEq)]
pub struct StreamingBatch {
    pub query_id: u128,
    pub rows: Vec<Vec<JsonScalar>>,
}

/// Sent exactly once on success, after the final batch.
#[derive(Debug, Clone, PartialEq)]
pub struct StreamingComplete {
    pub query_id: u128,
    pub execution_time_ms: u64,
    pub total_rows: u64,
}

} // verus!
