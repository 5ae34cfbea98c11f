use litesql_ha::client::{needs_download, UrlParts, WireResultSet, WireRow};
use litesql_ha::connection::{is_select_query, local_result};
use litesql_ha::value::SqlValue;
use litesql_ha::replicas::{get_replica_txseq, is_sqlite_file};
use litesql_ha::{
    EmbeddedReplicasManager, Error, ExecutionResult, HAClient, HAClientOptions, HAConnection,
    HAConnectionOptions, HADataSource, HADataSourceOptions, QueryResponse, QueryType, Route,
    SessionOp, Value,
};

fn ok_response(txseq: i64, rows_affected: i64) -> QueryResponse {
    QueryResponse { error: String::new(), rows_affected, txseq, result_set: None }
}

fn replica_session() -> HAConnection {
    HAConnection::new(HAConnectionOptions {
        url: "litesql://localhost:8080/".to_string(),
        embedded_replicas_dir: Some("/data".to_string()),
        replication_url: Some("nats://localhost:4222".to_string()),
        ..Default::default()
    })
    .unwrap()
}

fn plain_session() -> HAConnection {
    HAConnection::new(HAConnectionOptions {
        url: "litesql://localhost:8080/db".to_string(),
        ..Default::default()
    })
    .unwrap()
}

fn registry_with(name: &str, seq: i64) -> EmbeddedReplicasManager {
    let mut reg = EmbeddedReplicasManager::new();
    reg.add_replica(name.to_string(), format!("/data/{}", name), seq);
    reg.start();
    reg
}

#[test]
fn simple_round_trip_result() {
    let mut conn = plain_session();
    let route = conn.query("SELECT 1 as value", &[], None).unwrap();
    let req = match route {
        Route::Remote(req) => req,
        Route::Replica(_) => panic!("no registry was given"),
    };
    assert_eq!(req.sql, "SELECT 1 as value");
    assert_eq!(req.query_type, QueryType::ExecQuery);
    assert_eq!(req.replication_id, "db");
    let response = QueryResponse {
        error: String::new(),
        rows_affected: 0,
        txseq: 0,
        result_set: Some(WireResultSet {
            columns: vec!["value".to_string()],
            rows: vec![WireRow { values: vec![Value::Int64(1).to_any()] }],
        }),
    };
    let result = conn.complete_query(response).unwrap();
    assert_eq!(result.columns, vec!["value".to_string()]);
    assert_eq!(result.rows, vec![vec![Value::Int64(1)]]);
    assert_eq!(result.rows_affected, 0);
    assert_eq!(result.row_count(), 1);
    assert_eq!(result.column_count(), 1);
}

#[test]
fn parameterised_update_carries_ordinals() {
    let conn = plain_session();
    let params = [Value::String("Alice".to_string()), Value::String("alice@example.com".to_string())];
    let req = conn.execute("INSERT INTO users(name,email) VALUES (?,?)", &params).unwrap();
    assert_eq!(req.query_type, QueryType::ExecUpdate);
    assert_eq!(req.params.len(), 2);
    assert_eq!(req.params[0].ordinal, 1);
    assert_eq!(req.params[1].ordinal, 2);
    assert_eq!(req.params[0].name, "");
    let v0 = req.params[0].value.clone().unwrap();
    assert_eq!(v0.type_url, "type.googleapis.com/google.protobuf.StringValue");
    assert_eq!(v0.value, vec![0x0a, 0x05, 0x41, 0x6c, 0x69, 0x63, 0x65]);
    let v1 = req.params[1].value.clone().unwrap();
    let mut expected = vec![0x0a, 0x11];
    expected.extend_from_slice(b"alice@example.com");
    assert_eq!(v1.value, expected);
    let mut conn = conn;
    assert_eq!(conn.complete_update(ok_response(0, 1)), Ok(1));
}

#[test]
fn replica_freshness_decides_the_route() {
    let mut conn = replica_session();
    let reg = registry_with("db1", 10);
    assert_eq!(conn.complete_update(ok_response(10, 1)), Ok(1));
    assert_eq!(conn.client().txseq(), 10);
    let r = conn.query("SELECT * FROM t", &[], Some(&reg)).unwrap();
    assert_eq!(r, Route::Replica("/data/db1".to_string()));
    assert_eq!(conn.complete_update(ok_response(11, 1)), Ok(1));
    let r = conn.query("SELECT * FROM t", &[], Some(&reg)).unwrap();
    assert!(matches!(r, Route::Remote(_)));
}

#[test]
fn writes_always_go_remote() {
    let conn = replica_session();
    let reg = registry_with("db1", 100);
    let r = conn.run("INSERT INTO t VALUES (1)", &[], Some(&reg)).unwrap();
    match r {
        Route::Remote(req) => assert_eq!(req.query_type, QueryType::Unspecified),
        Route::Replica(_) => panic!("a write went to a replica"),
    }
    let r = conn.run("  with x as (select 1) select * from x", &[], Some(&reg)).unwrap();
    assert_eq!(r, Route::Replica("/data/db1".to_string()));
}

#[test]
fn transaction_flags_follow_responses() {
    let mut conn = plain_session();
    let req = conn.begin_transaction().unwrap();
    assert_eq!(req.sql, "BEGIN");
    assert_eq!(req.query_type, QueryType::ExecUpdate);
    assert_eq!(conn.complete_op(SessionOp::Begin, ok_response(0, 0)), Ok(()));
    assert!(!conn.auto_commit());
    let req = conn.commit().unwrap();
    assert_eq!(req.sql, "COMMIT");
    assert_eq!(conn.complete_op(SessionOp::Commit, ok_response(0, 0)), Ok(()));
    assert!(conn.auto_commit());
    assert_eq!(conn.set_auto_commit(true), Ok(None));
    let req = conn.set_auto_commit(false).unwrap().unwrap();
    assert_eq!(req.sql, "BEGIN");
    assert_eq!(conn.rollback().unwrap().sql, "ROLLBACK");
    let req = conn.set_read_only(true).unwrap();
    assert_eq!(req.sql, "PRAGMA query_only = 1");
    assert_eq!(conn.complete_op(SessionOp::ReadOnly(true), ok_response(0, 0)), Ok(()));
    assert!(conn.read_only());
}

#[test]
fn server_error_changes_no_flag() {
    let mut conn = plain_session();
    let failed = QueryResponse { error: "boom".to_string(), rows_affected: 0, txseq: 9, result_set: None };
    assert_eq!(conn.complete_op(SessionOp::Begin, failed.clone()), Err(Error::Query("boom".to_string())));
    assert!(conn.auto_commit());
    assert_eq!(conn.client().txseq(), 0);
    assert_eq!(conn.complete_query(failed), Err(Error::Query("boom".to_string())));
}

#[test]
fn closed_session_rejects_everything() {
    let mut conn = plain_session();
    assert_eq!(conn.close(), Ok(()));
    assert!(conn.is_closed());
    assert_eq!(conn.query("SELECT 1", &[], None), Err(Error::ConnectionClosed));
    assert_eq!(conn.run("SELECT 1", &[], None), Err(Error::ConnectionClosed));
    assert_eq!(conn.execute("DELETE FROM t", &[]), Err(Error::ConnectionClosed));
    assert_eq!(conn.begin_transaction(), Err(Error::ConnectionClosed));
    assert_eq!(conn.commit(), Err(Error::ConnectionClosed));
    assert_eq!(conn.rollback(), Err(Error::ConnectionClosed));
    assert_eq!(conn.set_auto_commit(false), Err(Error::ConnectionClosed));
    assert_eq!(conn.set_read_only(true), Err(Error::ConnectionClosed));
    assert_eq!(conn.is_valid(), None);
    assert_eq!(conn.set_catalog("other"), Err(Error::ConnectionClosed));
    assert_eq!(conn.catalog(), "db");
    assert_eq!(conn.close(), Ok(()));
}

#[test]
fn txseq_never_decreases() {
    let mut client = HAClient::new(HAClientOptions {
        url: "litesql://h/db".to_string(),
        ..Default::default()
    })
    .unwrap();
    client.observe_txseq(5);
    client.observe_txseq(3);
    client.observe_txseq(0);
    assert_eq!(client.txseq(), 5);
    client.observe_txseq(8);
    assert_eq!(client.txseq(), 8);
}

#[test]
fn undecodable_row_is_a_conversion_error() {
    let mut conn = plain_session();
    let bad = litesql_ha::WireEnvelope { type_url: "x".to_string(), value: vec![] };
    let response = QueryResponse {
        error: String::new(),
        rows_affected: 0,
        txseq: 4,
        result_set: Some(WireResultSet { columns: vec!["a".to_string()], rows: vec![WireRow { values: vec![bad] }] }),
    };
    assert!(matches!(conn.complete_query(response), Err(Error::TypeConversion(_))));
    assert_eq!(conn.client().txseq(), 4);
}

#[test]
fn response_without_result_set_carries_rows_affected() {
    let mut conn = plain_session();
    let r = conn.complete_query(ok_response(0, 7)).unwrap();
    assert_eq!(r, ExecutionResult { columns: vec![], rows: vec![], rows_affected: 7 });
    assert_eq!(ExecutionResult::empty().rows_affected, 0);
}

#[test]
fn url_gives_database_host_and_port() {
    let c = HAClient::new(HAClientOptions {
        url: "litesql://example.com:9000//mydb".to_string(),
        token: Some("SECRET-REDACTED".to_string()),
        ..Default::default()
    })
    .unwrap();
    assert_eq!(c.replication_id(), "mydb");
    assert_eq!(c.host(), "example.com");
    assert_eq!(c.port(), 9000);
    assert_eq!(c.timeout(), 30);
    assert_eq!(c.authorization(), Some("Bearer SECRET-REDACTED".to_string()));
    let d = HAClient::new(HAClientOptions { url: "litesqls://db.local/".to_string(), ..Default::default() })
        .unwrap();
    assert_eq!(d.port(), 8080);
    assert!(d.use_tls());
    assert!(!c.use_tls());
    assert_eq!(d.replication_id(), "");
    assert_eq!(d.authorization(), None);
    assert!(matches!(
        HAClient::new(HAClientOptions { url: "not a url".to_string(), ..Default::default() }),
        Err(Error::UrlParse(_))
    ));
}

#[test]
fn catalog_cannot_be_empty() {
    let mut conn = plain_session();
    assert!(matches!(conn.set_catalog(""), Err(Error::InvalidParameter(_))));
    assert_eq!(conn.catalog(), "db");
    assert_eq!(conn.set_catalog("other"), Ok(()));
    assert_eq!(conn.catalog(), "other");
    let probe = conn.is_valid().unwrap();
    assert_eq!(probe.sql, "SELECT 1");
    assert_eq!(probe.replication_id, "other");
}

#[test]
fn classifier_reads_the_first_keyword() {
    assert!(is_select_query("SELECT 1"));
    assert!(is_select_query("  \n\tselect * from t"));
    assert!(is_select_query("Pragma table_info(t)"));
    assert!(is_select_query("EXPLAIN QUERY PLAN SELECT 1"));
    assert!(is_select_query("with x as (select 1) select * from x"));
    assert!(!is_select_query("INSERT INTO t VALUES (1)"));
    assert!(!is_select_query("SELEC"));
    assert!(!is_select_query("WITHDRAW 1"));
    assert!(!is_select_query("SELECTED * FROM t"));
    assert!(!is_select_query("select_all()"));
    assert!(is_select_query("SELECT"));
    assert!(is_select_query("select*from t"));
    assert!(is_select_query("WITH(x)"));
    assert!(!is_select_query(""));
}

#[test]
fn registry_selects_and_refreshes() {
    let mut reg = EmbeddedReplicasManager::new();
    assert!(!reg.is_running());
    assert!(reg.needs_load("a"));
    reg.add_replica("a".to_string(), "/d/a".to_string(), 3);
    reg.add_replica("a".to_string(), "/elsewhere".to_string(), 99);
    reg.start();
    assert!(!reg.needs_load("a"));
    assert_eq!(reg.get_replica("a").unwrap().dsn, "/d/a");
    assert_eq!(reg.get_replica("").unwrap().get_txseq(), 3);
    assert!(reg.is_replica_updated("", 3));
    assert!(!reg.is_replica_updated("a", 4));
    reg.refresh_replica("a", Some(7));
    reg.refresh_replica("a", Some(5));
    reg.refresh_replica("a", None);
    assert_eq!(reg.get_replica("a").unwrap().txseq, 7);
    reg.add_replica("b".to_string(), "/d/b".to_string(), 1);
    assert!(reg.get_replica("").is_none());
    assert_eq!(reg.create_connection("b"), Some("/d/b".to_string()));
    let mut names = reg.replica_names();
    names.sort();
    assert_eq!(names, vec!["a".to_string(), "b".to_string()]);
    reg.close();
    assert!(!reg.is_running());
    assert!(reg.get_replica("a").is_none());
    assert!(!reg.is_replica_updated("a", 0));
}

#[test]
fn sqlite_files_are_recognised() {
    let mut header = b"SQLite format 3\0".to_vec();
    assert!(is_sqlite_file(&header, 4096));
    assert!(!is_sqlite_file(&header, 99));
    assert!(!is_sqlite_file(&header[..15], 4096));
    header[15] = b'!';
    assert!(!is_sqlite_file(&header, 4096));
    assert_eq!(get_replica_txseq(Some(12)), 12);
    assert_eq!(get_replica_txseq(None), 0);
    assert!(needs_download(false, false));
    assert!(!needs_download(true, false));
    assert!(needs_download(true, true));
}

#[test]
fn data_source_defaults_and_options() {
    let mut ds = HADataSource::new(HADataSourceOptions { url: "litesql://h/db".to_string(), ..Default::default() });
    assert_eq!(ds.timeout(), 30);
    assert_eq!(ds.login_timeout(), 30);
    assert!(ds.replica_options().is_none());
    ds.set_embedded_replicas_dir("/data".to_string())
        .set_replication_url("nats://h:4222".to_string())
        .set_replication_durable("me".to_string())
        .set_password("pw".to_string())
        .set_timeout(5);
    let ro = ds.replica_options().unwrap();
    assert_eq!(ro.stream, "ha");
    assert_eq!(ro.directory, "/data");
    assert_eq!(ds.password(), Some("pw"));
    let co = ds.connection_options();
    assert_eq!(co.timeout, 5);
    assert_eq!(co.token, Some("pw".to_string()));
    assert_eq!(ds.client_options().url, "litesql://h/db");
    assert_eq!(HADataSource::default().url(), "");
}

#[test]
fn replica_rows_become_values() {
    let r = local_result(
        vec!["a".to_string(), "b".to_string()],
        vec![vec![SqlValue::Integer(1), SqlValue::Text("x".to_string())], vec![SqlValue::Null, SqlValue::Blob(vec![2])]],
    );
    assert_eq!(r.columns, vec!["a".to_string(), "b".to_string()]);
    assert_eq!(r.rows, vec![vec![Value::Int64(1), Value::String("x".to_string())], vec![Value::Null, Value::Bytes(vec![2])]]);
    assert_eq!(r.rows_affected, 0);
}

#[test]
fn parsed_url_parts_set_up_the_client() {
    let parts = UrlParts { path: "///orders".to_string(), host: None, port: None };
    let c = HAClient::from_parts(parts, None, true, 12);
    assert_eq!(c.replication_id(), "orders");
    assert_eq!(c.host(), "localhost");
    assert_eq!(c.port(), 8080);
    assert!(c.use_tls());
    assert_eq!(c.timeout(), 12);
    assert_eq!(c.txseq(), 0);
    let parts = UrlParts { path: "/a/b".to_string(), host: Some("h".to_string()), port: Some(1) };
    let c = HAClient::from_parts(parts, Some("t".to_string()), false, 1);
    assert_eq!(c.replication_id(), "a/b");
    assert_eq!(c.host(), "h");
    assert_eq!(c.port(), 1);
    assert_eq!(c.authorization(), Some("Bearer t".to_string()));
}

#[test]
fn explicit_ports_are_kept() {
    let c = HAClient::new(HAClientOptions { url: "litesql://h:80/db".to_string(), ..Default::default() }).unwrap();
    assert_eq!(c.port(), 80);
    assert_eq!(c.host(), "h");
    assert_eq!(c.replication_id(), "db");
    let c = HAClient::new(HAClientOptions { url: "litesqls://h:443".to_string(), ..Default::default() }).unwrap();
    assert_eq!(c.port(), 443);
    assert!(c.use_tls());
    assert_eq!(c.replication_id(), "");
    let c = HAClient::new(HAClientOptions {
        url: "litesql://h".to_string(),
        enable_ssl: true,
        ..Default::default()
    })
    .unwrap();
    assert_eq!(c.port(), 8080);
    assert!(c.use_tls());
}
