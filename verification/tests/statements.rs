use threadline::pairs::canonical_pair;
use threadline::statements::{
    account_key_params, account_upsert_params, create_statement, pair_key_params,
    pair_upsert_params,
    relation_insert_params, schema_statements, ACCOUNTS_TABLE, CREATE_GUARD,
};
use threadline::values::Param;

#[test]
fn canonical_pair_puts_the_lower_id_first() {
    assert_eq!(canonical_pair(1, 2), (1, 2));
    assert_eq!(canonical_pair(2, 1), (1, 2));
    assert_eq!(canonical_pair(5, 5), (5, 5));
    assert_eq!(canonical_pair(-3, -8), (-8, -3));
    assert_eq!(canonical_pair(i64::MAX, i64::MIN), (i64::MIN, i64::MAX));
}

#[test]
fn pair_params_are_the_same_in_both_orders() {
    let forward = pair_upsert_params(9, 4, 77);
    let backward = pair_upsert_params(4, 9, 77);
    assert_eq!(forward, backward);
    assert_eq!(
        forward,
        vec![
            Param::Integer(4),
            Param::Integer(9),
            Param::Integer(77),
            Param::Integer(77)
        ]
    );
}

#[test]
fn relation_params_keep_the_direction() {
    assert_eq!(
        relation_insert_params(9, 4, 3),
        vec![
            Param::Integer(9),
            Param::Integer(4),
            Param::Integer(3),
            Param::Integer(3)
        ]
    );
}

#[test]
fn account_params_bind_url_or_null() {
    assert_eq!(
        account_upsert_params("u", "p", Some("http://x"), 12),
        vec![
            Param::Text("u".to_string()),
            Param::Text("p".to_string()),
            Param::Text("http://x".to_string()),
            Param::Integer(12),
            Param::Integer(12)
        ]
    );
    assert_eq!(
        account_upsert_params("u", "p", None, 12)[2],
        Param::Null
    );
}

#[test]
fn account_key_is_username_and_platform() {
    assert_eq!(
        account_key_params("u", "p"),
        vec![Param::Text("u".to_string()), Param::Text("p".to_string())]
    );
}

#[test]
fn schema_has_five_guarded_statements() {
    let statements = schema_statements();
    assert_eq!(statements.len(), 5);
    for statement in &statements {
        assert!(statement.starts_with("CREATE TABLE IF NOT EXISTS "));
    }
    assert!(statements[0].contains(" accounts ("));
    assert!(statements[1].contains(" relations ("));
    assert!(statements[2].contains(" connected_accounts ("));
    assert!(statements[3].contains(" nodes ("));
    assert!(statements[4].contains(" edges ("));
}

#[test]
fn create_statement_is_guard_then_table() {
    assert_eq!(CREATE_GUARD, "CREATE TABLE IF NOT EXISTS");
    assert_eq!(
        create_statement(" t (x INTEGER)"),
        "CREATE TABLE IF NOT EXISTS t (x INTEGER)"
    );
    assert_eq!(
        create_statement(ACCOUNTS_TABLE),
        format!("CREATE TABLE IF NOT EXISTS{}", ACCOUNTS_TABLE)
    );
}

#[test]
fn pair_key_is_the_canonical_pair() {
    assert_eq!(pair_key_params(9, 4), vec![Param::Integer(4), Param::Integer(9)]);
    assert_eq!(pair_key_params(4, 9), pair_key_params(9, 4));
}
