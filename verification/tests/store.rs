use rusqlite::types::{Null, Value};
use rusqlite::{Connection, Row, ToSql};
use sql_bridge::bridge::{Bridge, Envelope, Event, Progress, Request};
use sql_bridge::error::{ExecutionError, Stage};
use sql_bridge::value::{InputNumber, InputValue, ParamValue, ResultValue, StoreValue};

fn go_on(progress: Progress) -> Bridge {
    match progress {
        Progress::Ask(bridge) => bridge,
        Progress::Done(outcome) => panic!("the call ended early: {:?}", outcome),
    }
}

fn end(progress: Progress) -> Result<Envelope, ExecutionError> {
    match progress {
        Progress::Done(outcome) => outcome,
        Progress::Ask(bridge) => panic!("the call goes on: {:?}", bridge.pending),
    }
}

fn boxed(param: &ParamValue) -> Box<dyn ToSql> {
    match param {
        ParamValue::Null => Box::new(Null),
        ParamValue::Bool(b) => Box::new(*b),
        ParamValue::Integer(i) => Box::new(*i),
        ParamValue::Real(bits) => Box::new(f64::from_bits(*bits)),
        ParamValue::Text(s) => Box::new(s.clone()),
    }
}

fn cells(row: &Row<'_>, count: usize) -> Vec<Option<StoreValue>> {
    (0..count)
        .map(|i| {
            row.get::<usize, Value>(i).ok().map(|value| match value {
                Value::Null => StoreValue::Null,
                Value::Integer(i) => StoreValue::Integer(i),
                Value::Real(f) => StoreValue::Real(f.to_bits()),
                Value::Text(s) => StoreValue::Text(s),
                Value::Blob(b) => StoreValue::Blob(b),
            })
        })
        .collect()
}

fn execute_sql(
    location: &str,
    query: &str,
    values: Vec<InputValue>,
) -> Result<Envelope, ExecutionError> {
    let bridge = Bridge::start(location.to_string(), query.to_string(), &values);
    let conn = match Connection::open(&bridge.location) {
        Ok(conn) => conn,
        Err(e) => return end(bridge.advance(Event::OpenFailed(e.to_string()))),
    };
    let bridge = go_on(bridge.advance(Event::Opened));
    let mut stmt = match conn.prepare(&bridge.query) {
        Ok(stmt) => stmt,
        Err(e) => return end(bridge.advance(Event::PrepareFailed(e.to_string()))),
    };
    let count = stmt.column_count();
    let names: Vec<Option<String>> =
        (0..count).map(|i| stmt.column_name(i).ok().map(|name| name.to_string())).collect();
    let bridge = go_on(bridge.advance(Event::Prepared(names)));
    let params: Vec<Box<dyn ToSql>> = bridge.params.iter().map(boxed).collect();
    let refs: Vec<&dyn ToSql> = params.iter().map(|p| p.as_ref()).collect();
    match bridge.pending {
        Request::Query => {
            let mut rows = match stmt.query(refs.as_slice()) {
                Ok(rows) => rows,
                Err(e) => return end(bridge.advance(Event::QueryFailed(e.to_string()))),
            };
            let mut bridge = go_on(bridge.advance(Event::QueryStarted));
            loop {
                let event = match rows.next() {
                    Ok(Some(row)) => Event::Row(cells(row, count)),
                    Ok(None) => Event::RowsEnd,
                    Err(e) => Event::RowFailed(e.to_string()),
                };
                match bridge.advance(event) {
                    Progress::Ask(next) => bridge = next,
                    Progress::Done(outcome) => return outcome,
                }
            }
        }
        Request::Execute => {
            let event = match stmt.execute(refs.as_slice()) {
                Ok(rows_affected) => {
                    Event::Executed { rows_affected, last_insert_id: conn.last_insert_rowid() }
                }
                Err(e) => Event::ExecuteFailed(e.to_string()),
            };
            end(bridge.advance(event))
        }
        other => panic!("nothing to do for {:?}", other),
    }
}

fn fresh(name: &str) -> String {
    let location = format!("/tmp/sql_bridge_{}.db", name);
    for table in ["t", "kinds", "pairs"] {
        execute_sql(&location, &format!("DROP TABLE IF EXISTS {}", table), Vec::new()).unwrap();
    }
    location
}

fn text(s: &str) -> InputValue {
    InputValue::Text(s.to_string())
}

fn integer(i: i64) -> InputValue {
    InputValue::Number(InputNumber { integer: Some(i), real: Some((i as f64).to_bits()), text: i.to_string() })
}

fn double(f: f64) -> InputValue {
    InputValue::Number(InputNumber { integer: None, real: Some(f.to_bits()), text: f.to_string() })
}

fn create(location: &str) -> Result<Envelope, ExecutionError> {
    execute_sql(location, "CREATE TABLE t(id INTEGER PRIMARY KEY, name TEXT)", Vec::new())
}

#[test]
fn create_table_affects_no_rows() {
    let db = fresh("create");
    assert_eq!(
        create(&db),
        Ok(Envelope { rows: Vec::new(), rows_affected: 0, last_insert_id: Some(0) })
    );
}

#[test]
fn insert_reports_one_row_and_its_identifier() {
    let db = fresh("insert");
    create(&db).unwrap();
    assert_eq!(
        execute_sql(&db, "INSERT INTO t(name) VALUES (?)", vec![text("Alice")]),
        Ok(Envelope { rows: Vec::new(), rows_affected: 1, last_insert_id: Some(1) })
    );
}

#[test]
fn select_returns_the_inserted_row() {
    let db = fresh("select");
    create(&db).unwrap();
    execute_sql(&db, "INSERT INTO t(name) VALUES (?)", vec![text("Alice")]).unwrap();
    let envelope = execute_sql(&db, "SELECT id, name FROM t", Vec::new()).unwrap();
    assert_eq!(envelope.rows_affected, 0);
    assert_eq!(envelope.last_insert_id, None);
    assert_eq!(envelope.rows.len(), 1);
    assert_eq!(envelope.rows[0].len(), 2);
    assert_eq!(envelope.rows[0].get("id"), Some(&ResultValue::Integer(1)));
    assert_eq!(envelope.rows[0].get("name"), Some(&ResultValue::Text("Alice".to_string())));
}

#[test]
fn malformed_statement_fails_at_preparation() {
    let db = fresh("malformed");
    let error = execute_sql(&db, "SELEC id FROM", Vec::new()).unwrap_err();
    assert_eq!(error.stage, Stage::Prepare);
    assert!(error.message().starts_with("Failed to prepare statement: "));
    assert!(error.message().len() > "Failed to prepare statement: ".len());
}

#[test]
fn unknown_table_fails_at_preparation() {
    let db = fresh("unknown");
    let error = execute_sql(&db, "SELECT * FROM nowhere", Vec::new()).unwrap_err();
    assert_eq!(error.stage, Stage::Prepare);
}

#[test]
fn missing_parameter_fails_at_binding_of_a_write() {
    let db = fresh("mismatch_write");
    execute_sql(&db, "CREATE TABLE pairs(a TEXT, b TEXT)", Vec::new()).unwrap();
    let error =
        execute_sql(&db, "INSERT INTO pairs(a, b) VALUES (?, ?)", vec![text("x")]).unwrap_err();
    assert_eq!(error.stage, Stage::Execute);
    assert!(error.message().starts_with("Execute failed: "));
    let envelope = execute_sql(&db, "SELECT a FROM pairs", Vec::new()).unwrap();
    assert!(envelope.rows.is_empty());
}

#[test]
fn missing_parameter_fails_at_binding_of_a_read() {
    let db = fresh("mismatch_read");
    let error = execute_sql(&db, "SELECT ?, ?", vec![text("x")]).unwrap_err();
    assert_eq!(error.stage, Stage::Query);
    assert!(error.message().starts_with("Query failed: "));
}

#[test]
fn location_that_cannot_be_opened_fails_at_opening() {
    let error =
        execute_sql("/nonexistent-directory/journal.db", "SELECT 1", Vec::new()).unwrap_err();
    assert_eq!(error.stage, Stage::Open);
    assert!(error.message().starts_with("Failed to open database: "));
}

#[test]
fn constraint_violation_fails_at_execution() {
    let db = fresh("constraint");
    create(&db).unwrap();
    execute_sql(&db, "INSERT INTO t(id, name) VALUES (?, ?)", vec![integer(1), text("a")]).unwrap();
    let error =
        execute_sql(&db, "INSERT INTO t(id, name) VALUES (?, ?)", vec![integer(1), text("b")])
            .unwrap_err();
    assert_eq!(error.stage, Stage::Execute);
}

#[test]
fn parameters_are_bound_by_position() {
    let db = fresh("position");
    execute_sql(&db, "CREATE TABLE pairs(a TEXT, b TEXT)", Vec::new()).unwrap();
    execute_sql(&db, "INSERT INTO pairs(a, b) VALUES (?, ?)", vec![text("x"), text("y")]).unwrap();
    execute_sql(&db, "INSERT INTO pairs(a, b) VALUES (?, ?)", vec![text("y"), text("x")]).unwrap();
    let envelope = execute_sql(&db, "SELECT a, b FROM pairs ORDER BY rowid", Vec::new()).unwrap();
    assert_eq!(envelope.rows.len(), 2);
    assert_eq!(envelope.rows[0].get("a"), Some(&ResultValue::Text("x".to_string())));
    assert_eq!(envelope.rows[0].get("b"), Some(&ResultValue::Text("y".to_string())));
    assert_eq!(envelope.rows[1].get("a"), Some(&ResultValue::Text("y".to_string())));
    assert_eq!(envelope.rows[1].get("b"), Some(&ResultValue::Text("x".to_string())));
}

#[test]
fn reading_twice_gives_the_same_envelope() {
    let db = fresh("twice");
    create(&db).unwrap();
    execute_sql(&db, "INSERT INTO t(name) VALUES (?)", vec![text("Alice")]).unwrap();
    execute_sql(&db, "INSERT INTO t(name) VALUES (?)", vec![text("Bob")]).unwrap();
    let first = execute_sql(&db, "SELECT id, name FROM t WHERE id >= ?", vec![integer(1)]);
    let second = execute_sql(&db, "SELECT id, name FROM t WHERE id >= ?", vec![integer(1)]);
    assert!(first.is_ok());
    assert_eq!(first.as_ref().unwrap().rows.len(), 2);
    assert_eq!(first, second);
}

#[test]
fn written_values_are_read_back() {
    let db = fresh("round_trip");
    execute_sql(&db, "CREATE TABLE kinds(n, i, r, s, b, j)", Vec::new()).unwrap();
    let written = execute_sql(
        &db,
        "INSERT INTO kinds(n, i, r, s, b, j) VALUES (?, ?, ?, ?, ?, ?)",
        vec![
            InputValue::Null,
            integer(-42),
            double(1.5),
            text("Alice"),
            InputValue::Bool(true),
            InputValue::Nested("[1,2]".to_string()),
        ],
    );
    assert_eq!(written, Ok(Envelope { rows: Vec::new(), rows_affected: 1, last_insert_id: Some(1) }));
    let envelope = execute_sql(&db, "SELECT n, i, r, s, b, j FROM kinds", Vec::new()).unwrap();
    assert_eq!(envelope.rows.len(), 1);
    let row = &envelope.rows[0];
    assert_eq!(row.get("n"), Some(&ResultValue::Null));
    assert_eq!(row.get("i"), Some(&ResultValue::Integer(-42)));
    assert_eq!(row.get("r"), Some(&ResultValue::Real(1.5f64.to_bits())));
    assert_eq!(row.get("s"), Some(&ResultValue::Text("Alice".to_string())));
    assert_eq!(row.get("b"), Some(&ResultValue::Integer(1)));
    assert_eq!(row.get("j"), Some(&ResultValue::Text("[1,2]".to_string())));
}

#[test]
fn double_that_is_no_number_is_read_back_as_null() {
    let db = fresh("no_number");
    execute_sql(&db, "CREATE TABLE kinds(r, inf, zero)", Vec::new()).unwrap();
    execute_sql(
        &db,
        "INSERT INTO kinds(r, inf, zero) VALUES (?, ?, ?)",
        vec![double(f64::NAN), double(f64::INFINITY), double(-0.0)],
    )
    .unwrap();
    let envelope = execute_sql(&db, "SELECT r, inf, zero FROM kinds", Vec::new()).unwrap();
    assert_eq!(envelope.rows[0].get("r"), Some(&ResultValue::Null));
    assert_eq!(envelope.rows[0].get("inf"), Some(&ResultValue::Real(f64::INFINITY.to_bits())));
    assert_eq!(envelope.rows[0].get("zero"), Some(&ResultValue::Real((-0.0f64).to_bits())));
}

#[test]
fn stored_blob_is_read_as_null() {
    let db = fresh("blob");
    let envelope = execute_sql(&db, "SELECT x'0102' AS data, 7 AS seven", Vec::new()).unwrap();
    assert_eq!(envelope.rows.len(), 1);
    assert_eq!(envelope.rows[0].get("data"), Some(&ResultValue::Null));
    assert_eq!(envelope.rows[0].get("seven"), Some(&ResultValue::Integer(7)));
}

#[test]
fn row_count_is_that_of_the_store() {
    let db = fresh("count");
    create(&db).unwrap();
    for name in ["a", "b", "c", "d", "e"] {
        execute_sql(&db, "INSERT INTO t(name) VALUES (?)", vec![text(name)]).unwrap();
    }
    let all = execute_sql(&db, "SELECT name FROM t", Vec::new()).unwrap();
    assert_eq!(all.rows.len(), 5);
    let counted = execute_sql(&db, "SELECT count(*) AS n FROM t", Vec::new()).unwrap();
    assert_eq!(counted.rows[0].get("n"), Some(&ResultValue::Integer(5)));
    let some = execute_sql(&db, "select name from t where id > ?", vec![integer(3)]).unwrap();
    assert_eq!(some.rows.len(), 2);
}

#[test]
fn update_and_delete_report_affected_rows() {
    let db = fresh("affected");
    create(&db).unwrap();
    for name in ["a", "b", "c"] {
        execute_sql(&db, "INSERT INTO t(name) VALUES (?)", vec![text(name)]).unwrap();
    }
    let updated = execute_sql(&db, "UPDATE t SET name = ? WHERE id >= ?", vec![text("z"), integer(2)]).unwrap();
    assert!(updated.rows.is_empty());
    assert_eq!(updated.rows_affected, 2);
    assert!(updated.last_insert_id.is_some());
    let deleted = execute_sql(&db, "DELETE FROM t", Vec::new()).unwrap();
    assert!(deleted.rows.is_empty());
    assert_eq!(deleted.rows_affected, 3);
}
