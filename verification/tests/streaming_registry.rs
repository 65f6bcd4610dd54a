use sqlmate::registry::{
    clone_config, ActiveQueries, ConnectionManager, PoolHandle, TunnelInfo,
};
use sqlmate::stream::{run_stream, StreamBatcher, StreamEvent, STREAM_BATCH_SIZE};
use sqlmate::types::{ConnectionConfig, CoreError, DatabaseType, JsonScalar};

fn config(id: u128, db_type: DatabaseType) -> ConnectionConfig {
    ConnectionConfig {
        id,
        name: "dev".to_string(),
        db_type,
        host: Some("db.internal".to_string()),
        port: Some(5433),
        username: Some("app".to_string()),
        database: Some("main".to_string()),
        ssl_enabled: false,
        ssl_mode: None,
        ssl_ca_path: None,
        ssl_cert_path: None,
        ssl_key_path: None,
        ssh_enabled: false,
        ssh_host: None,
        ssh_port: None,
        ssh_username: None,
        ssh_auth_method: None,
        ssh_password: None,
        ssh_private_key_path: None,
        environment: Some("dev".to_string()),
        color_tag: None,
    }
}

fn int_rows(n: i64) -> Vec<Vec<JsonScalar>> {
    let mut rows = Vec::new();
    let mut i: i64 = 0;
    while i < n {
        rows.push(vec![JsonScalar::IntNum(i)]);
        i += 1;
    }
    rows
}

#[test]
fn stream_batches_2500_rows_as_1000_1000_500() {
    let evs = run_stream(7, vec!["id".to_string()], int_rows(2500), STREAM_BATCH_SIZE, 12);
    assert_eq!(evs.len(), 5);
    match &evs[0] {
        StreamEvent::Metadata(m) => {
            assert_eq!(m.query_id, 7);
            assert_eq!(m.columns, vec!["id".to_string()]);
        },
        other => panic!("expected metadata first, got {:?}", other),
    }
    let sizes: Vec<usize> = evs
        .iter()
        .filter_map(|e| match e {
            StreamEvent::Batch(b) => Some(b.rows.len()),
            _ => None,
        })
        .collect();
    assert_eq!(sizes, vec![1000, 1000, 500]);
    match evs.last().unwrap() {
        StreamEvent::Complete(c) => {
            assert_eq!(c.total_rows, 2500);
            assert_eq!(c.execution_time_ms, 12);
        },
        other => panic!("expected completion last, got {:?}", other),
    }
}

#[test]
fn stream_rows_reassemble_in_order() {
    let rows = int_rows(1503);
    let evs = run_stream(1, vec!["id".to_string()], rows.clone(), 1000, 0);
    let mut seen: Vec<Vec<JsonScalar>> = Vec::new();
    for e in &evs {
        if let StreamEvent::Batch(b) = e {
            seen.extend(b.rows.iter().cloned());
        }
    }
    assert_eq!(seen, rows);
}

#[test]
fn stream_of_exact_multiple_has_no_partial_batch() {
    let evs = run_stream(2, vec!["id".to_string()], int_rows(2000), 1000, 0);
    assert_eq!(evs.len(), 4);
    let sizes: Vec<usize> = evs
        .iter()
        .filter_map(|e| match e {
            StreamEvent::Batch(b) => Some(b.rows.len()),
            _ => None,
        })
        .collect();
    assert_eq!(sizes, vec![1000, 1000]);
    match evs.last().unwrap() {
        StreamEvent::Complete(c) => assert_eq!(c.total_rows, 2000),
        other => panic!("expected completion last, got {:?}", other),
    }
}

#[test]
fn stream_of_empty_result_is_one_completion() {
    let evs = run_stream(3, vec!["a".to_string()], Vec::new(), 1000, 4);
    assert_eq!(evs.len(), 1);
    match &evs[0] {
        StreamEvent::Complete(c) => assert_eq!(c.total_rows, 0),
        other => panic!("expected completion, got {:?}", other),
    }
}

#[test]
fn cancel_before_first_batch_leaves_no_completion() {
    let mut active = ActiveQueries::new();
    active.register(42);
    assert!(active.is_active(42));

    let mut machine = StreamBatcher::new(42, 1000);
    let mut delivered: Vec<StreamEvent> = Vec::new();
    delivered.push(machine.start_columns(vec!["a".to_string()]));
    for _ in 0..10 {
        if let Some(ev) = machine.push_row(vec![JsonScalar::Null]) {
            delivered.push(ev);
        }
    }

    let was_active = active.cancel_query(42);
    assert!(was_active);
    assert!(!active.is_active(42));
    machine.cancel();

    assert!(delivered.iter().all(|e| !matches!(e, StreamEvent::Complete(_))));
    assert!(matches!(delivered[0], StreamEvent::Metadata(_)));
    assert_eq!(delivered.len(), 1);
}

#[test]
fn cancel_of_unknown_query_is_a_no_op() {
    let mut active = ActiveQueries::new();
    assert!(!active.cancel_query(9));
    assert!(!active.is_active(9));
}

#[test]
fn connect_installs_exactly_one_pool_table() {
    let mut m = ConnectionManager::new();
    let c = config(11, DatabaseType::Postgres);
    m.record_attempt(clone_config(&c), Some("pw".to_string()));
    m.complete_connect(c, Some("pw".to_string()), PoolHandle { slot: 1 }, None);
    assert!(m.get_postgres_pools().contains_key(11));
    assert!(!m.get_mysql_pools().contains_key(11));
    assert!(!m.get_sqlite_pools().contains_key(11));
    assert!(!m.get_tunnels().contains_key(11));
    assert_eq!(m.find_dialect(11), Some(DatabaseType::Postgres));
}

#[test]
fn reconnect_as_other_dialect_moves_the_pool() {
    let mut m = ConnectionManager::new();
    m.complete_connect(config(5, DatabaseType::Postgres), None, PoolHandle { slot: 1 }, None);
    m.complete_connect(config(5, DatabaseType::MySql), None, PoolHandle { slot: 2 }, None);
    assert!(!m.get_postgres_pools().contains_key(5));
    assert!(m.get_mysql_pools().contains_key(5));
    assert_eq!(m.find_dialect(5), Some(DatabaseType::MySql));
}

#[test]
fn ssh_connect_records_a_tunnel() {
    let mut m = ConnectionManager::new();
    let mut c = config(8, DatabaseType::Postgres);
    c.ssh_enabled = true;
    c.ssh_host = Some("jump".to_string());
    c.ssh_username = Some("ops".to_string());
    c.ssh_auth_method = Some("password".to_string());
    c.ssh_password = Some("secret".to_string());
    m.complete_connect(c, None, PoolHandle { slot: 3 }, Some(TunnelInfo { local_port: 50111 }));
    assert!(m.get_tunnels().contains_key(8));
    assert_eq!(m.get_tunnels().get(8).unwrap().local_port, 50111);
}

#[test]
fn disconnect_removes_every_trace_and_is_idempotent() {
    let mut m = ConnectionManager::new();
    let mut c = config(13, DatabaseType::MySql);
    c.ssh_enabled = true;
    c.ssh_host = Some("jump".to_string());
    c.ssh_username = Some("ops".to_string());
    c.ssh_auth_method = Some("password".to_string());
    c.ssh_password = Some("s".to_string());
    m.complete_connect(c, Some("pw".to_string()), PoolHandle { slot: 4 }, Some(TunnelInfo {
        local_port: 50222,
    }));
    let tunnel = m.disconnect(13);
    assert_eq!(tunnel, Some(TunnelInfo { local_port: 50222 }));
    assert!(!m.get_postgres_pools().contains_key(13));
    assert!(!m.get_mysql_pools().contains_key(13));
    assert!(!m.get_sqlite_pools().contains_key(13));
    assert!(!m.get_tunnels().contains_key(13));
    assert_eq!(m.find_dialect(13), None);
    let again = m.disconnect(13);
    assert_eq!(again, None);
}

#[test]
fn switch_database_rebuilds_config_with_new_name() {
    let mut m = ConnectionManager::new();
    m.record_attempt(config(21, DatabaseType::MySql), Some("pw".to_string()));
    let (cfg, pw) = m.switch_database_plan(21, "other").unwrap();
    assert_eq!(cfg.database, Some("other".to_string()));
    assert_eq!(cfg.db_type, DatabaseType::MySql);
    assert_eq!(cfg.host, Some("db.internal".to_string()));
    assert_eq!(pw, Some("pw".to_string()));
}

#[test]
fn switch_database_rejected_for_sqlite() {
    let mut m = ConnectionManager::new();
    m.record_attempt(config(22, DatabaseType::Sqlite), None);
    match m.switch_database_plan(22, "other") {
        Err(CoreError::Configuration(msg)) => {
            assert!(msg.contains("SQLite"));
        },
        other => panic!("expected a configuration error, got {:?}", other),
    }
}

#[test]
fn switch_database_of_unknown_id_is_not_connected() {
    let m = ConnectionManager::new();
    assert!(matches!(m.switch_database_plan(99, "x"), Err(CoreError::NotConnected)));
}

#[test]
fn error_messages_name_their_category() {
    assert_eq!(CoreError::NotConnected.message(), "Connection not found");
    assert_eq!(
        CoreError::Configuration("Path required for SQLite".to_string()).message(),
        "Configuration error: Path required for SQLite",
    );
    assert_eq!(CoreError::Query("boom".to_string()).message(), "Query error: boom");
    assert_eq!(CoreError::TunnelSetup("no route".to_string()).message(), "Tunnel error: no route");
    assert_eq!(
        CoreError::Connection("refused".to_string()).message(),
        "Connection error: refused",
    );
    assert_eq!(
        CoreError::ImportExport("bad file".to_string()).message(),
        "Import/export error: bad file",
    );
    assert_eq!(CoreError::AiGateway("quota".to_string()).message(), "AI gateway error: quota");
}
