//! The statements the repository sends to the storage engine, and the values
//! it binds to them.

use vstd::prelude::*;
use vstd::string::*;
use crate::pairs::{canonical_pair, higher_id, lower_id};
use crate::values::{param_views, Param, ParamView};

verus! {

/// The table of accounts; (username, platform) is unique.
pub const ACCOUNTS_TABLE: &'static str = " accounts (
            id INTEGER PRIMARY KEY AUTOINCREMENT,
            username TEXT NOT NULL,
            platform TEXT NOT NULL,
            profile_url TEXT,
            last_scraped_timestamp INTEGER,
            first_scraped_timestamp INTEGER,
            UNIQUE(username, platform)
        )";

/// The table of relations, an append-only log of directed edges.
pub const RELATIONS_TABLE: &'static str = " relations (
            id INTEGER PRIMARY KEY AUTOINCREMENT,
            source_account_id INTEGER NOT NULL,
            destination_account_id INTEGER NOT NULL,
            last_scraped_timestamp INTEGER,
            first_scraped_timestamp INTEGER,
            FOREIGN KEY (source_account_id) REFERENCES accounts(id),
            FOREIGN KEY (destination_account_id) REFERENCES accounts(id)
        )";

/// The table of connected pairs; (account_id_1, account_id_2) is unique.
pub const CONNECTED_ACCOUNTS_TABLE: &'static str = " connected_accounts (
            id INTEGER PRIMARY KEY AUTOINCREMENT,
            account_id_1 INTEGER NOT NULL,
            account_id_2 INTEGER NOT NULL,
            last_scraped_timestamp INTEGER,
            first_scraped_timestamp INTEGER,
            FOREIGN KEY (account_id_1) REFERENCES accounts(id),
            FOREIGN KEY (account_id_2) REFERENCES accounts(id),
            UNIQUE(account_id_1, account_id_2)
        )";

/// The table of nodes of the auxiliary labelled graph.
pub const NODES_TABLE: &'static str = " nodes (
            id INTEGER PRIMARY KEY AUTOINCREMENT,
            label TEXT NOT NULL,
            created_at INTEGER NOT NULL
        )";

/// The table of edges of the auxiliary labelled graph.
pub const EDGES_TABLE: &'static str = " edges (
            id INTEGER PRIMARY KEY AUTOINCREMENT,
            source_id INTEGER NOT NULL,
            target_id INTEGER NOT NULL,
            created_at INTEGER NOT NULL,
            FOREIGN KEY (source_id) REFERENCES nodes(id),
            FOREIGN KEY (target_id) REFERENCES nodes(id)
        )";

/// Inserts an account, or on a known (username, platform) replaces its
/// profile URL and last-seen timestamp. Binds username, platform, profile
/// URL, last-seen and first-seen timestamp.
pub const UPSERT_ACCOUNT_SQL: &'static str = "INSERT INTO accounts (username, platform, profile_url, last_scraped_timestamp, first_scraped_timestamp)
         VALUES (?1, ?2, ?3, ?4, ?5)
         ON CONFLICT(username, platform) DO UPDATE SET
           profile_url = excluded.profile_url,
           last_scraped_timestamp = excluded.last_scraped_timestamp";

/// Finds the id of the account with a given username and platform.
pub const FIND_ACCOUNT_ID_SQL: &'static str = "SELECT id FROM accounts WHERE username = ?1 AND platform = ?2";

/// Appends a relation. Binds source, destination, last-seen and first-seen
/// timestamp.
pub const INSERT_RELATION_SQL: &'static str = "INSERT INTO relations (source_account_id, destination_account_id, last_scraped_timestamp, first_scraped_timestamp)
         VALUES (?1, ?2, ?3, ?4)";

/// Inserts a connected pair, or on a known pair replaces its last-seen
/// timestamp. Binds the two ids, last-seen and first-seen timestamp.
pub const UPSERT_CONNECTED_ACCOUNT_SQL: &'static str = "INSERT INTO connected_accounts (account_id_1, account_id_2, last_scraped_timestamp, first_scraped_timestamp)
         VALUES (?1, ?2, ?3, ?4)
         ON CONFLICT(account_id_1, account_id_2) DO UPDATE SET
           last_scraped_timestamp = excluded.last_scraped_timestamp";

/// Finds the id of the connected pair with the given ids, lower id first.
pub const FIND_CONNECTED_ACCOUNT_ID_SQL: &'static str = "SELECT id FROM connected_accounts WHERE account_id_1 = ?1 AND account_id_2 = ?2";

/// Lists, for every table and view in every database of the connection, the
/// name of the database, the name of the table or view, and the name of each
/// of its columns.
pub const LIST_NAMES_SQL: &'static str = "SELECT t.schema, t.name, x.name FROM pragma_table_list AS t, pragma_table_xinfo(t.name, t.schema) AS x";

/// The number of columns that [`LIST_NAMES_SQL`] returns.
pub const LIST_NAMES_COLUMNS: usize = 3;

/// Reads all accounts by ascending id.
pub const SELECT_ACCOUNTS_SQL: &'static str = "SELECT id, username, platform, profile_url, last_scraped_timestamp, first_scraped_timestamp FROM accounts ORDER BY id";

/// Reads all relations by ascending id.
pub const SELECT_RELATIONS_SQL: &'static str = "SELECT id, source_account_id, destination_account_id, last_scraped_timestamp, first_scraped_timestamp FROM relations ORDER BY id";

/// Reads all connected pairs by ascending id.
pub const SELECT_CONNECTED_ACCOUNTS_SQL: &'static str = "SELECT id, account_id_1, account_id_2, last_scraped_timestamp, first_scraped_timestamp FROM connected_accounts ORDER BY id";

/// The words every schema statement starts with, which make it a no-op on a
/// table that exists.
pub const CREATE_GUARD: &'static str = "CREATE TABLE IF NOT EXISTS";

/// The table definitions of the schema, in the order in which they are
/// created: the three tables of the account graph, then the two of the
/// auxiliary labelled graph.
pub open spec fn table_texts() -> Seq<Seq<char>> {
    seq![
        ACCOUNTS_TABLE@,
        RELATIONS_TABLE@,
        CONNECTED_ACCOUNTS_TABLE@,
        NODES_TABLE@,
        EDGES_TABLE@,
    ]
}

/// The schema statements in the order in which they are run: each is the
/// guard followed by one table definition.
pub open spec fn schema_texts() -> Seq<Seq<char>> {
    Seq::new(table_texts().len(), |i: int| CREATE_GUARD@ + table_texts()[i])
}

/// The statement that creates one table unless it exists.
pub fn create_statement(table: &str) -> (statement: String)
    ensures
        statement@ == CREATE_GUARD@ + table@,
{
    String::from_str(CREATE_GUARD).concat(table)
}

/// The statements that create the schema, in the order in which they are run.
pub fn schema_statements() -> (statements: Vec<String>)
    ensures
        statements@.len() == schema_texts().len(),
        forall|i: int|
            0 <= i < statements@.len() ==> (#[trigger] statements@[i])@ == schema_texts()[i],
{
    let mut statements: Vec<String> = Vec::new();
    statements.push(create_statement(ACCOUNTS_TABLE));
    statements.push(create_statement(RELATIONS_TABLE));
    statements.push(create_statement(CONNECTED_ACCOUNTS_TABLE));
    statements.push(create_statement(NODES_TABLE));
    statements.push(create_statement(EDGES_TABLE));
    statements
}

/// Every schema statement creates its table only if the table does not exist
/// yet, so running the schema statements again creates nothing anew.
pub proof fn lemma_schema_statements_are_guarded()
    ensures
        schema_texts().len() == 5,
        forall|i: int|
            0 <= i < schema_texts().len() ==> CREATE_GUARD@.is_prefix_of(
                #[trigger] schema_texts()[i],
            ),
{
}

/// The text of an optional string.
pub open spec fn optional_text(text: Option<&str>) -> Option<Seq<char>> {
    match text {
        Some(t) => Some(t@),
        None => None,
    }
}

/// What the account upsert binds: username, platform, the profile URL or null,
/// and the time of observation as both last-seen and first-seen timestamp.
pub open spec fn account_upsert_bindings(
    username: Seq<char>,
    platform: Seq<char>,
    profile_url: Option<Seq<char>>,
    now: int,
) -> Seq<ParamView> {
    seq![
        ParamView::Text(username),
        ParamView::Text(platform),
        match profile_url {
            Some(url) => ParamView::Text(url),
            None => ParamView::Null,
        },
        ParamView::Integer(now),
        ParamView::Integer(now),
    ]
}

/// What the lookup of an account id binds: the unique key.
pub open spec fn account_key_bindings(username: Seq<char>, platform: Seq<char>) -> Seq<ParamView> {
    seq![ParamView::Text(username), ParamView::Text(platform)]
}

/// What the insert of a relation binds: source, destination, and the time of
/// observation as both timestamps.
pub open spec fn relation_insert_bindings(source: int, destination: int, now: int) -> Seq<
    ParamView,
> {
    seq![
        ParamView::Integer(source),
        ParamView::Integer(destination),
        ParamView::Integer(now),
        ParamView::Integer(now),
    ]
}

/// What the lookup of a connected pair's id binds: the lower id, then the
/// higher id.
pub open spec fn pair_key_bindings(id_1: int, id_2: int) -> Seq<ParamView> {
    seq![ParamView::Integer(lower_id(id_1, id_2)), ParamView::Integer(higher_id(id_1, id_2))]
}

/// What the upsert of a connected pair binds: the lower id, the higher id, and
/// the time of observation as both timestamps.
pub open spec fn pair_upsert_bindings(id_1: int, id_2: int, now: int) -> Seq<ParamView> {
    seq![
        ParamView::Integer(lower_id(id_1, id_2)),
        ParamView::Integer(higher_id(id_1, id_2)),
        ParamView::Integer(now),
        ParamView::Integer(now),
    ]
}

/// The parameters of the account upsert.
pub fn account_upsert_params(
    username: &str,
    platform: &str,
    profile_url: Option<&str>,
    now: i64,
) -> (params: Vec<Param>)
    ensures
        param_views(params@) == account_upsert_bindings(
            username@,
            platform@,
            optional_text(profile_url),
            now as int,
        ),
{
    let mut params: Vec<Param> = Vec::new();
    params.push(Param::Text(username.to_owned()));
    params.push(Param::Text(platform.to_owned()));
    params.push(
        match profile_url {
            Some(url) => Param::Text(url.to_owned()),
            None => Param::Null,
        },
    );
    params.push(Param::Integer(now));
    params.push(Param::Integer(now));
    assert(param_views(params@) =~= account_upsert_bindings(
        username@,
        platform@,
        optional_text(profile_url),
        now as int,
    ));
    params
}

/// The parameters of the lookup of an account id.
pub fn account_key_params(username: &str, platform: &str) -> (params: Vec<Param>)
    ensures
        param_views(params@) == account_key_bindings(username@, platform@),
{
    let mut params: Vec<Param> = Vec::new();
    params.push(Param::Text(username.to_owned()));
    params.push(Param::Text(platform.to_owned()));
    params
}

/// The parameters of the insert of a relation.
pub fn relation_insert_params(source: i64, destination: i64, now: i64) -> (params: Vec<Param>)
    ensures
        param_views(params@) == relation_insert_bindings(
            source as int,
            destination as int,
            now as int,
        ),
{
    let mut params: Vec<Param> = Vec::new();
    params.push(Param::Integer(source));
    params.push(Param::Integer(destination));
    params.push(Param::Integer(now));
    params.push(Param::Integer(now));
    assert(param_views(params@) =~= relation_insert_bindings(
        source as int,
        destination as int,
        now as int,
    ));
    params
}

/// The parameters of the lookup of a connected pair's id, the ids in
/// canonical order.
pub fn pair_key_params(id_1: i64, id_2: i64) -> (params: Vec<Param>)
    ensures
        param_views(params@) == pair_key_bindings(id_1 as int, id_2 as int),
{
    let (low, high) = canonical_pair(id_1, id_2);
    let mut params: Vec<Param> = Vec::new();
    params.push(Param::Integer(low));
    params.push(Param::Integer(high));
    assert(param_views(params@) =~= pair_key_bindings(id_1 as int, id_2 as int));
    params
}

/// The parameters of the upsert of a connected pair, the ids in canonical
/// order.
pub fn pair_upsert_params(id_1: i64, id_2: i64, now: i64) -> (params: Vec<Param>)
    ensures
        param_views(params@) == pair_upsert_bindings(id_1 as int, id_2 as int, now as int),
{
    let (low, high) = canonical_pair(id_1, id_2);
    let mut params: Vec<Param> = Vec::new();
    params.push(Param::Integer(low));
    params.push(Param::Integer(high));
    params.push(Param::Integer(now));
    params.push(Param::Integer(now));
    params
}

} // verus!
