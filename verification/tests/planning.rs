use sqlx::{Column, Row, TypeInfo, ValueRef};
use sqlmate::ai::{build_system_prompt, clean_generated_sql, join_schema_parts, table_schema_text};
use sqlmate::config::{
    connect_pool_plan, mysql_ssl_required, pg_ssl_mode_of, test_connection_url, PgSslModePlan,
    PoolPlan,
};
use sqlmate::engine::{
    checked_add_u64, format_kb, group_mysql_indexes, make_mysql_column, make_postgres_column,
    make_postgres_index, make_sqlite_column, make_sqlite_foreign_key, sqlite_table_info_sql,
    MysqlIndexRow, QueryEngine,
};
use sqlmate::tunnel::{
    pubkey_path_of, resolve_key_path, tunnel_plan, with_local_tunnel, SshAuth,
};
use sqlmate::types::{ConnectionConfig, CoreError, DatabaseType, JsonScalar, TableColumnStructure};
use sqlmate::value::RawValue;

fn base_config(db_type: DatabaseType) -> ConnectionConfig {
    ConnectionConfig {
        id: 1,
        name: "prod".to_string(),
        db_type,
        host: Some("10.0.0.5".to_string()),
        port: Some(5432),
        username: Some("svc".to_string()),
        database: Some("app".to_string()),
        ssl_enabled: false,
        ssl_mode: None,
        ssl_ca_path: None,
        ssl_cert_path: None,
        ssl_key_path: None,
        ssh_enabled: true,
        ssh_host: Some("bastion".to_string()),
        ssh_port: Some(2222),
        ssh_username: Some("ops".to_string()),
        ssh_auth_method: Some("password".to_string()),
        ssh_password: Some("hunter".to_string()),
        ssh_private_key_path: None,
        environment: None,
        color_tag: None,
    }
}

#[test]
fn tunnel_plan_carries_remote_database_address() {
    let plan = tunnel_plan(&base_config(DatabaseType::Postgres)).unwrap();
    assert_eq!(plan.ssh_host, "bastion");
    assert_eq!(plan.ssh_port, 2222);
    assert_eq!(plan.username, "ops");
    assert!(matches!(plan.auth, SshAuth::Password { ref password } if password == "hunter"));
    assert_eq!(plan.remote_host, "10.0.0.5");
    assert_eq!(plan.remote_port, 5432);
}

#[test]
fn tunnel_plan_defaults_dialect_port_and_ssh_port() {
    let mut c = base_config(DatabaseType::MySql);
    c.port = None;
    c.ssh_port = None;
    let plan = tunnel_plan(&c).unwrap();
    assert_eq!(plan.ssh_port, 22);
    assert_eq!(plan.remote_port, 3306);
}

#[test]
fn tunnel_plan_never_guesses_a_sqlite_port() {
    let mut c = base_config(DatabaseType::Sqlite);
    c.port = None;
    assert!(matches!(tunnel_plan(&c), Err(CoreError::Configuration(_))));
}

#[test]
fn tunnel_plan_requires_host_user_and_credentials() {
    let mut no_host = base_config(DatabaseType::Postgres);
    no_host.ssh_host = None;
    assert!(matches!(tunnel_plan(&no_host), Err(CoreError::Configuration(_))));
    let mut no_pass = base_config(DatabaseType::Postgres);
    no_pass.ssh_password = None;
    assert!(matches!(tunnel_plan(&no_pass), Err(CoreError::Configuration(_))));
    let mut keyless = base_config(DatabaseType::Postgres);
    keyless.ssh_auth_method = Some("key".to_string());
    keyless.ssh_private_key_path = None;
    assert!(matches!(tunnel_plan(&keyless), Err(CoreError::Configuration(_))));
    let mut keyed = base_config(DatabaseType::Postgres);
    keyed.ssh_auth_method = Some("key".to_string());
    keyed.ssh_password = None;
    keyed.ssh_private_key_path = Some("id_ed25519".to_string());
    assert!(
        matches!(tunnel_plan(&keyed).unwrap().auth, SshAuth::KeyFile { ref path } if path == "id_ed25519")
    );
}

#[test]
fn local_tunnel_substitutes_loopback_address() {
    let c = base_config(DatabaseType::Postgres);
    let local = with_local_tunnel(&c, 50123);
    assert_eq!(local.host, Some("127.0.0.1".to_string()));
    assert_eq!(local.port, Some(50123));
    assert_eq!(local.database, Some("app".to_string()));
    assert_eq!(local.ssh_host, Some("bastion".to_string()));
}

#[test]
fn key_paths_resolve_against_home() {
    assert_eq!(resolve_key_path("/abs/id_rsa", Some("/home/u")), "/abs/id_rsa");
    assert_eq!(resolve_key_path("~/keys/id_rsa", Some("/home/u")), "/home/u/keys/id_rsa");
    assert_eq!(resolve_key_path("id_rsa", Some("/home/u")), "/home/u/.ssh/id_rsa");
    assert_eq!(resolve_key_path("rel/id_rsa", Some("/home/u")), "rel/id_rsa");
    assert_eq!(resolve_key_path("id_rsa", None), "id_rsa");
    assert_eq!(pubkey_path_of("/home/u/.ssh/id_rsa"), "/home/u/.ssh/id_rsa.pub");
}

#[test]
fn pool_plans_fill_dialect_defaults() {
    let mut c = base_config(DatabaseType::Postgres);
    c.host = None;
    c.port = None;
    c.username = None;
    c.database = None;
    match connect_pool_plan(&c, &None).unwrap() {
        PoolPlan::Postgres(p) => {
            assert_eq!(p.host, "localhost");
            assert_eq!(p.port, 5432);
            assert_eq!(p.username, "postgres");
            assert_eq!(p.database, "postgres");
            assert_eq!(p.password, "");
            assert!(p.ssl.is_none());
        },
        other => panic!("expected a Postgres plan, got {:?}", other),
    }
    let mut m = base_config(DatabaseType::MySql);
    m.host = None;
    m.port = None;
    m.username = None;
    m.database = None;
    match connect_pool_plan(&m, &Some("pw".to_string())).unwrap() {
        PoolPlan::MySql(p) => {
            assert_eq!(p.host, "localhost");
            assert_eq!(p.port, 3306);
            assert_eq!(p.username, "root");
            assert_eq!(p.database, "");
            assert_eq!(p.password, "pw");
        },
        other => panic!("expected a MySQL plan, got {:?}", other),
    }
}

#[test]
fn sqlite_pool_plan_needs_a_path() {
    let mut c = base_config(DatabaseType::Sqlite);
    c.database = Some("/tmp/x.db".to_string());
    match connect_pool_plan(&c, &None).unwrap() {
        PoolPlan::Sqlite { url } => assert_eq!(url, "sqlite:/tmp/x.db"),
        other => panic!("expected a SQLite plan, got {:?}", other),
    }
    c.database = None;
    assert!(matches!(connect_pool_plan(&c, &None), Err(CoreError::Configuration(_))));
}

#[test]
fn ssl_modes_map_per_dialect() {
    assert_eq!(pg_ssl_mode_of(&Some("verify-full".to_string())), PgSslModePlan::VerifyFull);
    assert_eq!(pg_ssl_mode_of(&Some("prefer".to_string())), PgSslModePlan::Prefer);
    assert_eq!(pg_ssl_mode_of(&Some("whatever".to_string())), PgSslModePlan::Disable);
    assert_eq!(pg_ssl_mode_of(&None), PgSslModePlan::Disable);
    assert!(mysql_ssl_required(&Some("verify-ca".to_string())));
    assert!(!mysql_ssl_required(&Some("prefer".to_string())));
}

#[test]
fn test_connection_urls_are_exact() {
    let mut c = base_config(DatabaseType::Postgres);
    c.ssh_enabled = false;
    let url = test_connection_url(&c, &Some("pw".to_string())).unwrap();
    assert_eq!(url, "postgres://svc:pw@10.0.0.5:5432/app");
    let mut m = base_config(DatabaseType::MySql);
    m.port = None;
    let murl = test_connection_url(&m, &None).unwrap();
    assert_eq!(murl, "mysql://svc:@10.0.0.5:3306/app");
    let mut s = base_config(DatabaseType::Sqlite);
    s.database = Some(":memory:".to_string());
    assert_eq!(test_connection_url(&s, &None).unwrap(), "sqlite::memory:");
    let mut bad = base_config(DatabaseType::Postgres);
    bad.host = None;
    assert!(matches!(test_connection_url(&bad, &None), Err(CoreError::Configuration(_))));
}

#[test]
fn structure_constructors_read_catalog_conventions() {
    let pg = make_postgres_column("id".to_string(), "integer".to_string(), "NO", None, true);
    assert!(!pg.is_nullable);
    assert!(pg.is_primary_key);
    let my = make_mysql_column(
        "name".to_string(),
        "varchar(50)".to_string(),
        "YES",
        None,
        "PRI",
        Some("display name".to_string()),
    );
    assert!(my.is_nullable);
    assert!(my.is_primary_key);
    assert_eq!(my.comment, Some("display name".to_string()));
    let sq = make_sqlite_column("id".to_string(), "INTEGER".to_string(), 0, None, 1);
    assert!(sq.is_nullable);
    assert!(sq.is_primary_key);
    let idx = make_postgres_index("t_pkey".to_string(), "CREATE UNIQUE INDEX t_pkey ON t (id)");
    assert!(idx.is_unique);
    assert_eq!(idx.index_type, "btree");
    let fk = make_sqlite_foreign_key("orders", "user_id", "id");
    assert_eq!(fk.name, "fk_orders_user_id");
    assert_eq!(fk.constraint_type, "FOREIGN KEY");
    assert_eq!(fk.definition, "user_id -> orders(id)");
}

#[test]
fn mysql_indexes_group_by_name_in_first_appearance_order() {
    let rows = vec![
        MysqlIndexRow {
            key_name: "PRIMARY".to_string(),
            column_name: "id".to_string(),
            non_unique: 0,
            index_type: "BTREE".to_string(),
        },
        MysqlIndexRow {
            key_name: "idx_email".to_string(),
            column_name: "email".to_string(),
            non_unique: 1,
            index_type: "BTREE".to_string(),
        },
        MysqlIndexRow {
            key_name: "PRIMARY".to_string(),
            column_name: "tenant".to_string(),
            non_unique: 0,
            index_type: "BTREE".to_string(),
        },
    ];
    let grouped = group_mysql_indexes(&rows);
    assert_eq!(grouped.len(), 2);
    assert_eq!(grouped[0].name, "PRIMARY");
    assert_eq!(grouped[0].columns, vec!["id".to_string(), "tenant".to_string()]);
    assert!(grouped[0].is_unique);
    assert_eq!(grouped[1].name, "idx_email");
    assert_eq!(grouped[1].columns, vec!["email".to_string()]);
    assert!(!grouped[1].is_unique);
}

#[test]
fn kb_sizes_and_pragmas() {
    assert_eq!(format_kb(2048), "2 KB");
    assert_eq!(format_kb(1000), "0 KB");
    assert_eq!(sqlite_table_info_sql("us\"ers"), "PRAGMA table_info(\"us\"\"ers\")");
}

#[test]
fn affected_row_sums_refuse_overflow() {
    assert_eq!(checked_add_u64(2, 3), Some(5));
    assert_eq!(checked_add_u64(u64::MAX, 0), Some(u64::MAX));
    assert_eq!(checked_add_u64(u64::MAX, 1), None);
}

#[test]
fn generated_sql_loses_its_fences() {
    assert_eq!(clean_generated_sql("```sql\nSELECT 1\n```"), "SELECT 1");
    assert_eq!(clean_generated_sql("```\nSELECT 1\n```"), "SELECT 1");
    assert_eq!(clean_generated_sql("  SELECT 1  "), "SELECT 1");
}

#[test]
fn schema_context_lines_up_tables() {
    let cols = vec![
        TableColumnStructure {
            name: "id".to_string(),
            data_type: "integer".to_string(),
            is_nullable: false,
            default_value: None,
            is_primary_key: true,
            comment: None,
        },
        TableColumnStructure {
            name: "name".to_string(),
            data_type: "text".to_string(),
            is_nullable: true,
            default_value: None,
            is_primary_key: false,
            comment: None,
        },
    ];
    let block = table_schema_text("users", &cols);
    assert_eq!(block, "TABLE users:\n  id integer PRIMARY KEY NOT NULL\n  name text NULL");
    let joined = join_schema_parts(&vec!["A".to_string(), "B".to_string()]);
    assert_eq!(joined, "A\n\nB");
    let prompt = build_system_prompt("SQLite", "TABLE t:");
    assert!(prompt.starts_with("You are an expert SQLite SQL query generator."));
    assert!(prompt.ends_with("DATABASE SCHEMA:\nTABLE t:"));
}

#[test]
fn sqlite_memory_select_one_flows_through_the_mapper() {
    let rt = tokio::runtime::Runtime::new().unwrap();
    rt.block_on(async {
        let pool = sqlx::sqlite::SqlitePoolOptions::new()
            .max_connections(1)
            .connect("sqlite::memory:")
            .await
            .unwrap();
        let rows = sqlx::query("SELECT 1 AS x").fetch_all(&pool).await.unwrap();
        assert_eq!(rows.len(), 1);
        let first = &rows[0];
        let columns: Vec<String> = first.columns().iter().map(|c| c.name().to_string()).collect();
        let names: Vec<String> = (0..first.columns().len())
            .map(|i| {
                let value_type = first.try_get_raw(i).unwrap().type_info().name().to_lowercase();
                if value_type == "null" {
                    first.column(i).type_info().name().to_lowercase()
                } else {
                    value_type
                }
            })
            .collect();
        let mut mapped: Vec<Vec<JsonScalar>> = Vec::new();
        for row in &rows {
            let mut raw: Vec<RawValue> = Vec::new();
            for i in 0..row.columns().len() {
                let v = if let Ok(n) = row.try_get::<i64, _>(i) {
                    RawValue::Int(n)
                } else {
                    RawValue::Missing
                };
                raw.push(v);
            }
            mapped.push(QueryEngine::map_sqlite_row(&names, &raw));
        }
        let result = QueryEngine::assemble_result(columns, mapped, 1, None, None, None);
        assert_eq!(result.columns, vec!["x".to_string()]);
        assert_eq!(result.rows, vec![vec![JsonScalar::IntNum(1)]]);
        assert_eq!(result.affected_rows, 0);
    });
}
