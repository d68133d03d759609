use chrono::{NaiveDate, NaiveDateTime};
use profile_counter::store::{
    InsertCommand, RequestInfo, StoreAction, StoreError, StoreEvent, StoredRow, Transaction,
    INSERT_STATEMENT,
};

fn moment(second: u32) -> NaiveDateTime {
    NaiveDate::from_ymd_opt(2020, 5, 17).unwrap().and_hms_opt(12, 30, second).unwrap()
}

fn request(ip_address: &str, user_agent: &str) -> RequestInfo {
    RequestInfo {
        id: 0,
        ip_address: ip_address.to_string(),
        user_agent: user_agent.to_string(),
        created_at: None,
        updated_at: None,
    }
}

fn row(id: i32, ip_address: &str, user_agent: &str) -> StoredRow {
    StoredRow {
        id,
        ip_address: ip_address.to_string(),
        user_agent: user_agent.to_string(),
        created_at: moment(1),
        updated_at: moment(2),
    }
}

fn failure(description: &str) -> StoreError {
    StoreError { description: description.to_string() }
}

fn closed_with(description: &str) -> Option<(Transaction, StoreAction)> {
    Some((Transaction::Closed, StoreAction::Finish(Err(failure(description)))))
}

#[test]
fn create_asks_to_open_a_transaction() {
    let (state, action) = RequestInfo::create(request("10.0.0.1", "curl/7.68"));
    assert_eq!(state, Transaction::Opening { request: request("10.0.0.1", "curl/7.68") });
    assert_eq!(action, StoreAction::Begin);
}

#[test]
fn insert_statement_names_the_table_and_its_columns() {
    let mut statement = String::new();
    statement.push_str("INSERT INTO requests (ip_address, user_agent, created_at, updated_at) ");
    statement.push_str("VALUES ($1, $2, NOW(), NOW()) ");
    statement.push_str("RETURNING id, ip_address, user_agent, created_at, updated_at");
    assert_eq!(INSERT_STATEMENT, statement);
    assert!(!INSERT_STATEMENT.contains('\n'));
}

#[test]
fn insert_command_binds_address_then_user_agent() {
    let command = request("10.0.0.1", "curl/7.68").insert_command();
    assert_eq!(
        command,
        InsertCommand {
            statement: INSERT_STATEMENT.to_string(),
            parameters: vec!["10.0.0.1".to_string(), "curl/7.68".to_string()],
        }
    );
}

#[test]
fn insert_command_takes_the_values_as_they_are() {
    let command = request("'; DROP TABLE requests; --", "").insert_command();
    assert_eq!(command.statement, INSERT_STATEMENT);
    assert_eq!(command.parameters, vec!["'; DROP TABLE requests; --".to_string(), String::new()]);
}

#[test]
fn from_row_keeps_every_column() {
    let record = RequestInfo::from_row(row(17, "10.0.0.1", "curl/7.68"));
    assert_eq!(
        record,
        RequestInfo {
            id: 17,
            ip_address: "10.0.0.1".to_string(),
            user_agent: "curl/7.68".to_string(),
            created_at: Some(moment(1)),
            updated_at: Some(moment(2)),
        }
    );
}

#[test]
fn a_run_without_failures_inserts_then_commits() {
    let (state, action) = RequestInfo::create(request("10.0.0.1", "curl/7.68"));
    assert_eq!(action, StoreAction::Begin);

    let (state, action) = state.step(StoreEvent::Begun).unwrap();
    assert_eq!(state, Transaction::Inserting);
    assert_eq!(action, StoreAction::Insert(request("10.0.0.1", "curl/7.68").insert_command()));

    let inserted = StoreEvent::Inserted(row(5, "10.0.0.1", "curl/7.68"));
    let (state, action) = state.step(inserted).unwrap();
    assert_eq!(
        state,
        Transaction::Committing { record: RequestInfo::from_row(row(5, "10.0.0.1", "curl/7.68")) }
    );
    assert_eq!(action, StoreAction::Commit);

    let (state, action) = state.step(StoreEvent::Committed).unwrap();
    assert_eq!(state, Transaction::Closed);
    assert_eq!(
        action,
        StoreAction::Finish(Ok(RequestInfo::from_row(row(5, "10.0.0.1", "curl/7.68"))))
    );
}

#[test]
fn the_record_is_the_row_of_the_store_not_the_request() {
    let (state, _) = RequestInfo::create(request("10.0.0.1", "curl/7.68"));
    let (state, _) = state.step(StoreEvent::Begun).unwrap();
    let (state, _) = state.step(StoreEvent::Inserted(row(9, "10.0.0.2", "other"))).unwrap();
    let (_, action) = state.step(StoreEvent::Committed).unwrap();
    match action {
        StoreAction::Finish(Ok(record)) => {
            assert_eq!(record.id, 9);
            assert_eq!(record.ip_address, "10.0.0.2");
            assert_eq!(record.user_agent, "other");
            assert_eq!(record.created_at, Some(moment(1)));
            assert_eq!(record.updated_at, Some(moment(2)));
        }
        other => panic!("unexpected action {:?}", other),
    }
}

#[test]
fn a_failure_to_open_ends_the_transaction() {
    let (state, _) = RequestInfo::create(request("10.0.0.1", "curl/7.68"));
    assert_eq!(
        state.step(StoreEvent::Failed(failure("pool timed out"))),
        closed_with("pool timed out")
    );
}

#[test]
fn a_failure_to_insert_ends_the_transaction_without_a_commit() {
    let (state, _) = RequestInfo::create(request("10.0.0.1", "curl/7.68"));
    let (state, _) = state.step(StoreEvent::Begun).unwrap();
    assert_eq!(
        state.step(StoreEvent::Failed(failure("violates not-null constraint"))),
        closed_with("violates not-null constraint")
    );
}

#[test]
fn a_failure_to_commit_ends_the_transaction_without_a_record() {
    let (state, _) = RequestInfo::create(request("10.0.0.1", "curl/7.68"));
    let (state, _) = state.step(StoreEvent::Begun).unwrap();
    let (state, _) = state.step(StoreEvent::Inserted(row(5, "10.0.0.1", "curl/7.68"))).unwrap();
    assert_eq!(
        state.step(StoreEvent::Failed(failure("connection reset"))),
        closed_with("connection reset")
    );
}

#[test]
fn a_closed_transaction_takes_no_event() {
    assert_eq!(Transaction::Closed.step(StoreEvent::Begun), None);
    assert_eq!(Transaction::Closed.step(StoreEvent::Inserted(row(1, "a", "b"))), None);
    assert_eq!(Transaction::Closed.step(StoreEvent::Committed), None);
    assert_eq!(Transaction::Closed.step(StoreEvent::Failed(failure("late"))), None);
}

#[test]
fn an_event_out_of_turn_has_no_step() {
    let (state, _) = RequestInfo::create(request("a", "b"));
    assert_eq!(state.step(StoreEvent::Committed), None);
    let (state, _) = RequestInfo::create(request("a", "b"));
    assert_eq!(state.step(StoreEvent::Inserted(row(1, "a", "b"))), None);
    assert_eq!(Transaction::Inserting.step(StoreEvent::Begun), None);
    assert_eq!(Transaction::Inserting.step(StoreEvent::Committed), None);
    let committing = Transaction::Committing { record: RequestInfo::from_row(row(1, "a", "b")) };
    assert_eq!(committing.step(StoreEvent::Begun), None);
    let committing = Transaction::Committing { record: RequestInfo::from_row(row(1, "a", "b")) };
    assert_eq!(committing.step(StoreEvent::Inserted(row(2, "a", "b"))), None);
}

#[test]
fn store_error_is_described_by_its_text() {
    assert_eq!(failure("pool timed out").to_string(), "pool timed out");
    assert_eq!(failure("").to_string(), "");
}

#[test]
fn two_views_with_the_same_values_are_two_records() {
    let mut ids = Vec::new();
    for assigned in [41, 42] {
        let (state, _) = RequestInfo::create(request("10.0.0.1", "curl/7.68"));
        let (state, _) = state.step(StoreEvent::Begun).unwrap();
        let (state, _) =
            state.step(StoreEvent::Inserted(row(assigned, "10.0.0.1", "curl/7.68"))).unwrap();
        match state.step(StoreEvent::Committed) {
            Some((Transaction::Closed, StoreAction::Finish(Ok(record)))) => ids.push(record.id),
            other => panic!("unexpected step {:?}", other),
        }
    }
    assert_eq!(ids, vec![41, 42]);
    assert!(ids[0] < ids[1]);
}
