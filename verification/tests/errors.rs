use sql_bridge::error::{ExecutionError, Stage};

fn message(stage: Stage, detail: &str) -> String {
    ExecutionError { stage, detail: detail.to_string() }.message()
}

#[test]
fn open_failure_message() {
    assert_eq!(
        message(Stage::Open, "unable to open database file"),
        "Failed to open database: unable to open database file"
    );
}

#[test]
fn prepare_failure_message() {
    assert_eq!(
        message(Stage::Prepare, "near \"SELEC\": syntax error"),
        "Failed to prepare statement: near \"SELEC\": syntax error"
    );
}

#[test]
fn query_failure_message() {
    assert_eq!(message(Stage::Query, "wrong count"), "Query failed: wrong count");
}

#[test]
fn collect_failure_message() {
    assert_eq!(message(Stage::Collect, "disk I/O error"), "Failed to collect rows: disk I/O error");
}

#[test]
fn execute_failure_message() {
    assert_eq!(
        message(Stage::Execute, "UNIQUE constraint failed: t.id"),
        "Execute failed: UNIQUE constraint failed: t.id"
    );
}

#[test]
fn message_with_empty_detail_is_the_prefix() {
    assert_eq!(message(Stage::Execute, ""), "Execute failed: ");
}
