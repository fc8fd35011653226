use threadline::commands::{
    db_execute, db_get_accounts, db_get_connected_accounts, db_get_relations, db_query,
    db_upsert_account, db_upsert_connected_account, db_upsert_relation,
};
use threadline::errors::StoreError;
use threadline::store::Store;

fn opened() -> Option<Store> {
    Some(
        Store::open_or_create(&std::path::PathBuf::from(":memory:"))
            .expect("an in-memory store opens"),
    )
}

#[test]
fn every_command_fails_on_an_empty_slot() {
    let mut state: Option<Store> = None;
    assert_eq!(db_execute(&mut state, "SELECT 1"), Err(StoreError::NotInitialized));
    assert!(matches!(
        db_query(&mut state, "SELECT 1"),
        Err(StoreError::NotInitialized)
    ));
    assert_eq!(
        db_upsert_account(&mut state, "a", "b", None),
        Err(StoreError::NotInitialized)
    );
    assert!(matches!(
        db_get_accounts(&mut state),
        Err(StoreError::NotInitialized)
    ));
    assert_eq!(
        db_upsert_relation(&mut state, 1, 2),
        Err(StoreError::NotInitialized)
    );
    assert!(matches!(
        db_get_relations(&mut state),
        Err(StoreError::NotInitialized)
    ));
    assert_eq!(
        db_upsert_connected_account(&mut state, 1, 2),
        Err(StoreError::NotInitialized)
    );
    assert!(matches!(
        db_get_connected_accounts(&mut state),
        Err(StoreError::NotInitialized)
    ));
    assert!(state.is_none());
}

#[test]
fn not_initialized_has_its_message() {
    assert_eq!(StoreError::NotInitialized.message(), "DB not initialized");
}

#[test]
fn store_errors_carry_the_cause_as_message() {
    assert_eq!(
        StoreError::QueryError("near \"x\": syntax error".to_string()).message(),
        "near \"x\": syntax error"
    );
    assert_eq!(
        StoreError::StorageUnavailable("unable to open database file".to_string()).message(),
        "unable to open database file"
    );
}

#[test]
fn commands_work_on_an_opened_store() {
    let mut state = opened();
    assert_eq!(db_upsert_account(&mut state, "alice", "x", None), Ok(1));
    assert_eq!(
        db_upsert_account(&mut state, "alice", "x", Some("http://p")),
        Ok(1)
    );
    let bob = db_upsert_account(&mut state, "bob", "x", None).unwrap();
    assert!(bob > 1);
    let accounts = db_get_accounts(&mut state).unwrap();
    assert_eq!(accounts.len(), 2);
    assert_eq!(accounts[0].get("profile_url").unwrap(), "http://p");
    assert_eq!(accounts[1].get("id").unwrap(), &bob.to_string());

    assert_eq!(db_upsert_relation(&mut state, 1, bob), Ok(1));
    assert_eq!(db_upsert_relation(&mut state, 1, bob), Ok(2));
    assert_eq!(db_get_relations(&mut state).unwrap().len(), 2);

    assert_eq!(db_upsert_connected_account(&mut state, bob, 1), Ok(1));
    db_upsert_connected_account(&mut state, 1, bob).unwrap();
    let pairs = db_get_connected_accounts(&mut state).unwrap();
    assert_eq!(pairs.len(), 1);
    assert_eq!(pairs[0].get("account_id_1").unwrap(), "1");
    assert_eq!(pairs[0].get("account_id_2").unwrap(), &bob.to_string());
}

#[test]
fn execute_and_query_commands_reach_the_engine() {
    let mut state = opened();
    db_execute(
        &mut state,
        "INSERT INTO nodes (label, created_at) VALUES ('hub', 5)",
    )
    .unwrap();
    let rows = db_query(&mut state, "SELECT label, created_at FROM nodes").unwrap();
    assert_eq!(rows.len(), 1);
    assert_eq!(rows[0].get("label").unwrap(), "hub");
    assert_eq!(rows[0].get("created_at").unwrap(), "5");
    assert!(matches!(
        db_execute(&mut state, "INSERT INTO nowhere VALUES (1)"),
        Err(StoreError::QueryError(_))
    ));
    assert!(matches!(
        db_query(&mut state, "SELECT * FROM nowhere"),
        Err(StoreError::QueryError(_))
    ));
}
