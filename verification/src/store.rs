//! The graph repository: typed operations on accounts, relations and
//! connected pairs, and the generic statements beside them.
//!
//! What a statement does to the tables is decided by the storage engine, so
//! no contract here speaks of rows in the store, nor of what the engine
//! received. A store keeps a record of the statements it hands over, which
//! the library itself writes beside each call; the contracts state what an
//! operation adds to that record, which failure it can report, and what
//! shape the rows it returns have.

use vstd::prelude::*;
use vstd::string::*;
use crate::clock::unix_now;
use crate::engine::{
    conn_execute,
    conn_last_insert_rowid,
    conn_prepare,
    engine_integer,
    engine_null,
    engine_text,
    error_text,
    row_text_decodes,
    open_connection,
    row_value,
    rows_next,
    stmt_column_count,
    stmt_column_name,
    stmt_query,
};
use crate::errors::StoreError;
use crate::pairs::{higher_id, lower_id};
use crate::rows::{text_rows, uniform_rows, ResultSet, TextRow};
use crate::statements::{
    account_key_bindings,
    account_key_params,
    account_upsert_bindings,
    account_upsert_params,
    optional_text,
    pair_key_bindings,
    pair_key_params,
    pair_upsert_bindings,
    pair_upsert_params,
    relation_insert_bindings,
    relation_insert_params,
    schema_statements,
    schema_texts,
    FIND_ACCOUNT_ID_SQL,
    FIND_CONNECTED_ACCOUNT_ID_SQL,
    INSERT_RELATION_SQL,
    LIST_NAMES_COLUMNS,
    LIST_NAMES_SQL,
    SELECT_ACCOUNTS_SQL,
    SELECT_CONNECTED_ACCOUNTS_SQL,
    SELECT_RELATIONS_SQL,
    UPSERT_ACCOUNT_SQL,
    UPSERT_CONNECTED_ACCOUNT_SQL,
};
use crate::values::{param_views, Param, ParamView, SqlValue};

verus! {

/// The name of the store file inside the application's data directory.
pub const STORE_FILE_NAME: &'static str = "threadline.db";

/// What is reported for a store that holds a name that is not UTF-8.
pub const UNREADABLE_NAMES_MESSAGE: &'static str = "the store holds a name that is not UTF-8";

/// What a lookup reports when no row has the key.
pub const NO_ROWS_MESSAGE: &'static str = "Query returned no rows";

/// What a lookup reports when the value it finds is no integer.
pub const NOT_AN_ID_MESSAGE: &'static str = "the id found is not an integer";

/// What a query reports when it yields more rows than a vector can hold.
pub const TOO_MANY_ROWS_MESSAGE: &'static str = "query returned too many rows";

/// One statement as it was handed to the engine: its text and the values
/// bound to it, by position.
pub struct Sent {
    pub sql: Seq<char>,
    pub bindings: Seq<ParamView>,
}

/// A statement handed over with nothing bound to it.
pub open spec fn plain(sql: Seq<char>) -> Sent {
    Sent { sql, bindings: Seq::empty() }
}

/// The listing of all names as it is handed over.
pub open spec fn names_listing_sent() -> Sent {
    plain(LIST_NAMES_SQL@)
}

/// What a query hands over: the listing of all names, and after it the query
/// itself, unless the listing failed or showed a name that is not UTF-8.
pub open spec fn queried(before: Seq<Sent>, after: Seq<Sent>, sql: Seq<char>) -> bool {
    ||| after == before.push(names_listing_sent()).push(plain(sql))
    ||| after == before.push(names_listing_sent())
}

/// What opening a store hands over: the listing of all names, then the
/// schema statements in order.
pub open spec fn opening_sends() -> Seq<Sent> {
    seq![names_listing_sent()] + schema_sends()
}

/// The schema statements as they are handed over, in order.
pub open spec fn schema_sends() -> Seq<Sent> {
    Seq::new(schema_texts().len(), |i: int| plain(schema_texts()[i]))
}

/// The upsert of an account as it is handed over.
pub open spec fn account_upsert_sent(
    username: Seq<char>,
    platform: Seq<char>,
    profile_url: Option<Seq<char>>,
    now: int,
) -> Sent {
    Sent {
        sql: UPSERT_ACCOUNT_SQL@,
        bindings: account_upsert_bindings(username, platform, profile_url, now),
    }
}

/// The lookup of an account id as it is handed over.
pub open spec fn account_lookup_sent(username: Seq<char>, platform: Seq<char>) -> Sent {
    Sent { sql: FIND_ACCOUNT_ID_SQL@, bindings: account_key_bindings(username, platform) }
}

/// The insert of a relation as it is handed over.
pub open spec fn relation_insert_sent(source: int, destination: int, now: int) -> Sent {
    Sent {
        sql: INSERT_RELATION_SQL@,
        bindings: relation_insert_bindings(source, destination, now),
    }
}

/// The upsert of a connected pair as it is handed over.
pub open spec fn pair_upsert_sent(id_1: int, id_2: int, now: int) -> Sent {
    Sent { sql: UPSERT_CONNECTED_ACCOUNT_SQL@, bindings: pair_upsert_bindings(id_1, id_2, now) }
}

/// The lookup of a connected pair's id as it is handed over.
pub open spec fn pair_lookup_sent(id_1: int, id_2: int) -> Sent {
    Sent { sql: FIND_CONNECTED_ACCOUNT_ID_SQL@, bindings: pair_key_bindings(id_1, id_2) }
}

/// What observing a connected pair hands over: the upsert, and after it the
/// lookup by the canonical pair where the upsert went through without
/// reporting a new row.
pub open spec fn pair_observed(
    before: Seq<Sent>,
    after: Seq<Sent>,
    id_1: int,
    id_2: int,
    now: int,
) -> bool {
    let upsert = pair_upsert_sent(id_1, id_2, now);
    ||| after == before.push(upsert)
    ||| after == before.push(upsert).push(pair_lookup_sent(id_1, id_2))
}

/// What observing an account hands over: the upsert, and after it the lookup
/// by the unique key where the upsert went through without reporting a new
/// row.
pub open spec fn account_observed(
    before: Seq<Sent>,
    after: Seq<Sent>,
    username: Seq<char>,
    platform: Seq<char>,
    profile_url: Option<Seq<char>>,
    now: int,
) -> bool {
    let upsert = account_upsert_sent(username, platform, profile_url, now);
    ||| after == before.push(upsert)
    ||| after == before.push(upsert).push(account_lookup_sent(username, platform))
}

/// What observing an account at the current time hands over: what observing
/// it at some time does.
pub open spec fn account_observed_now(
    before: Seq<Sent>,
    after: Seq<Sent>,
    username: Seq<char>,
    platform: Seq<char>,
    profile_url: Option<Seq<char>>,
) -> bool {
    exists|now: i64| #[trigger]
        account_observed(before, after, username, platform, profile_url, now as int)
}

/// What observing a relation at the current time hands over: one insert,
/// stamped with some time.
pub open spec fn relation_observed_now(
    before: Seq<Sent>,
    after: Seq<Sent>,
    source: int,
    destination: int,
) -> bool {
    exists|now: i64|
        after == before.push(#[trigger] relation_insert_sent(source, destination, now as int))
}

/// What observing a connected pair at the current time hands over: what
/// observing it at some time does.
pub open spec fn pair_observed_now(before: Seq<Sent>, after: Seq<Sent>, id_1: int, id_2: int) -> bool {
    exists|now: i64| #[trigger] pair_observed(before, after, id_1, id_2, now as int)
}

/// Observing a connected pair as (a, b) and as (b, a) hands the engine the
/// same statements with the same values, the lower id bound first: the engine
/// cannot tell the two observations apart, and the row they address has its
/// first id no larger than its second.
pub proof fn lemma_pair_observation_ignores_order(a: int, b: int, now: int)
    ensures
        pair_upsert_sent(a, b, now) == pair_upsert_sent(b, a, now),
        pair_lookup_sent(a, b) == pair_lookup_sent(b, a),
        pair_upsert_sent(a, b, now).bindings[0] == ParamView::Integer(lower_id(a, b)),
        pair_upsert_sent(a, b, now).bindings[1] == ParamView::Integer(higher_id(a, b)),
        lower_id(a, b) <= higher_id(a, b),
{
}

/// Observing one relation twice hands the engine two inserts, one after the
/// other, and leaves what was handed over before untouched: the library
/// merges nothing.
pub proof fn lemma_relation_observations_accumulate(
    before: Seq<Sent>,
    middle: Seq<Sent>,
    after: Seq<Sent>,
    source: int,
    destination: int,
    first_now: int,
    second_now: int,
)
    requires
        middle == before.push(relation_insert_sent(source, destination, first_now)),
        after == middle.push(relation_insert_sent(source, destination, second_now)),
    ensures
        after.len() == before.len() + 2,
        after.subrange(0, before.len() as int) == before,
        after[before.len() as int].sql == INSERT_RELATION_SQL@,
        after[before.len() as int + 1].sql == INSERT_RELATION_SQL@,
{
}

/// Two observations of one account hand the engine the same upsert statement
/// with the same unique key bound first, whatever their profile URLs and
/// times; each binds its own profile URL, and its own time as both
/// timestamps.
pub proof fn lemma_account_observations_share_key(
    username: Seq<char>,
    platform: Seq<char>,
    first_url: Option<Seq<char>>,
    first_now: int,
    second_url: Option<Seq<char>>,
    second_now: int,
)
    ensures
        account_upsert_sent(username, platform, first_url, first_now).sql
            == account_upsert_sent(username, platform, second_url, second_now).sql,
        account_upsert_sent(username, platform, first_url, first_now).bindings.subrange(0, 2)
            == account_key_bindings(username, platform),
        account_upsert_sent(username, platform, second_url, second_now).bindings.subrange(0, 2)
            == account_key_bindings(username, platform),
        second_url matches Some(url) ==> account_upsert_sent(
            username,
            platform,
            second_url,
            second_now,
        ).bindings[2] == ParamView::Text(url),
        account_upsert_sent(username, platform, second_url, second_now).bindings[3]
            == ParamView::Integer(second_now),
        account_upsert_sent(username, platform, second_url, second_now).bindings[4]
            == ParamView::Integer(second_now),
{
    assert(account_upsert_sent(username, platform, first_url, first_now).bindings.subrange(0, 2)
        =~= account_key_bindings(username, platform));
    assert(account_upsert_sent(username, platform, second_url, second_now).bindings.subrange(
        0,
        2,
    ) =~= account_key_bindings(username, platform));
}

/// An open store: one connection to the storage engine, and the record of
/// what was handed to it.
///
/// Every operation takes the store exclusively, so operations on one store
/// never overlap.
pub struct Store {
    conn: rusqlite::Connection,
    sent: Ghost<Seq<Sent>>,
}

/// The id of the row that a statement inserted, judged by the engine's last
/// row id before and after the statement: a positive id that differs from the
/// one before is the id of a fresh row. An unchanged id tells nothing, since
/// an update leaves it as it was.
pub fn new_row_id(before: i64, after: i64) -> (id: Option<i64>)
    ensures
        id == (if after > 0 && after != before {
            Some(after)
        } else {
            None
        }),
{
    if after > 0 && after != before {
        Some(after)
    } else {
        None
    }
}

/// The id that a value holds: the integer itself, and none for a value of
/// another kind.
pub fn id_from_value(value: &SqlValue) -> (id: Option<i64>)
    ensures
        id == (match *value {
            SqlValue::Integer(i) => Some(i),
            _ => None,
        }),
{
    match value {
        SqlValue::Integer(i) => Some(*i),
        _ => None,
    }
}

/// The parameters in the engine's own value type, in the same order.
fn bind(params: &Vec<Param>) -> (bound: Vec<rusqlite::types::Value>)
    ensures
        bound@.len() == params@.len(),
{
    let mut bound: Vec<rusqlite::types::Value> = Vec::new();
    let mut i: usize = 0;
    while i < params.len()
        invariant
            i <= params.len(),
            bound@.len() == i,
        decreases params.len() - i,
    {
        let value = match &params[i] {
            Param::Null => engine_null(),
            Param::Integer(i) => engine_integer(*i),
            Param::Text(text) => engine_text(text.clone()),
        };
        bound.push(value);
        i = i + 1;
    }
    bound
}

/// The failure for a statement that the engine rejected: a query error that
/// carries the engine's message as it is.
fn query_error(message: String) -> (failure: StoreError)
    ensures
        failure == StoreError::QueryError(message),
{
    StoreError::QueryError(message)
}

impl Store {
    /// The record of the statements handed to the engine since the store was
    /// opened, oldest first. The library writes it beside each call; nothing
    /// else is known of it.
    pub closed spec fn sent(&self) -> Seq<Sent> {
        self.sent@
    }

    /// Hands a statement that returns no rows to the engine.
    fn send_execute(&mut self, sql: &str, params: &Vec<Param>) -> (changed: Result<
        usize,
        rusqlite::Error,
    >)
        ensures
            final(self).sent() == old(self).sent().push(
                Sent { sql: sql@, bindings: param_views(params@) },
            ),
    {
        proof {
            self.sent@ = self.sent@.push(Sent { sql: sql@, bindings: param_views(params@) });
        }
        conn_execute(&self.conn, sql, bind(params))
    }

    /// Hands a query for one id to the engine and reads the id from the first
    /// value of its first row.
    fn send_lookup(&mut self, sql: &str, params: &Vec<Param>) -> (found: Result<
        i64,
        StoreError,
    >)
        ensures
            final(self).sent() == old(self).sent().push(
                Sent { sql: sql@, bindings: param_views(params@) },
            ),
            found matches Err(e) ==> e is QueryError,
    {
        proof {
            self.sent@ = self.sent@.push(Sent { sql: sql@, bindings: param_views(params@) });
        }
        let mut stmt = match conn_prepare(&self.conn, sql) {
            Ok(stmt) => stmt,
            Err(e) => {
                return Err(query_error(error_text(&e)));
            },
        };
        let mut cursor = match stmt_query(&mut stmt, bind(params)) {
            Ok(cursor) => cursor,
            Err(e) => {
                return Err(query_error(error_text(&e)));
            },
        };
        match rows_next(&mut cursor) {
            Err(e) => Err(query_error(error_text(&e))),
            Ok(None) => Err(query_error(String::from_str(NO_ROWS_MESSAGE))),
            Ok(Some(row)) => match row_value(row, 0) {
                Err(e) => Err(query_error(error_text(&e))),
                Ok(value) => match id_from_value(&value) {
                    Some(id) => Ok(id),
                    None => Err(query_error(String::from_str(NOT_AN_ID_MESSAGE))),
                },
            },
        }
    }

    /// Reads every name of a database, table, view and column that the
    /// connection knows, and tells whether all of them are UTF-8.
    fn names_decode(&mut self) -> (checked: Result<bool, rusqlite::Error>)
        ensures
            final(self).sent() == old(self).sent().push(names_listing_sent()),
    {
        proof {
            self.sent@ = self.sent@.push(names_listing_sent());
        }
        let mut stmt = match conn_prepare(&self.conn, LIST_NAMES_SQL) {
            Ok(stmt) => stmt,
            Err(e) => {
                return Err(e);
            },
        };
        let mut cursor = match stmt_query(&mut stmt, Vec::new()) {
            Ok(cursor) => cursor,
            Err(e) => {
                return Err(e);
            },
        };
        let mut seen: usize = 0;
        while seen < usize::MAX
            invariant
                self.sent() == old(self).sent().push(names_listing_sent()),
            decreases usize::MAX - seen,
        {
            match rows_next(&mut cursor) {
                Err(e) => {
                    return Err(e);
                },
                Ok(None) => {
                    return Ok(true);
                },
                Ok(Some(row)) => {
                    let mut k: usize = 0;
                    while k < LIST_NAMES_COLUMNS
                        invariant
                            k <= LIST_NAMES_COLUMNS,
                            self.sent() == old(self).sent().push(names_listing_sent()),
                        decreases LIST_NAMES_COLUMNS - k,
                    {
                        match row_text_decodes(row, k) {
                            Ok(true) => {},
                            Ok(false) => {
                                return Ok(false);
                            },
                            Err(e) => {
                                return Err(e);
                            },
                        }
                        k = k + 1;
                    }
                },
            }
            seen = seen + 1;
        }
        Ok(false)
    }

    /// Opens the store file at `path`, creating it if need be, and runs the
    /// schema statements, which create each table unless it exists. A store
    /// that holds a name that is not UTF-8 is refused before anything is
    /// written to it.
    pub fn open_or_create(path: &std::path::PathBuf) -> (opened: Result<Store, StoreError>)
        ensures
            opened matches Ok(store) ==> store.sent() == opening_sends(),
            opened matches Err(e) ==> e is StorageUnavailable,
    {
        match open_connection(path) {
            Err(e) => Err(StoreError::StorageUnavailable(error_text(&e))),
            Ok(conn) => {
                let mut store = Store { conn, sent: Ghost(Seq::empty()) };
                match store.names_decode() {
                    Ok(true) => {},
                    Ok(false) => {
                        return Err(
                            StoreError::StorageUnavailable(
                                String::from_str(UNREADABLE_NAMES_MESSAGE),
                            ),
                        );
                    },
                    Err(e) => {
                        return Err(StoreError::StorageUnavailable(error_text(&e)));
                    },
                }
                match store.install_schema() {
                    Ok(()) => {
                        proof {
                            assert(store.sent() =~= opening_sends());
                        }
                        Ok(store)
                    },
                    Err(e) => Err(e),
                }
            },
        }
    }

    /// Runs the schema statements in order and stops at the first that fails.
    pub fn install_schema(&mut self) -> (installed: Result<(), StoreError>)
        ensures
            installed is Ok ==> final(self).sent() == old(self).sent() + schema_sends(),
            installed matches Err(e) ==> e is StorageUnavailable && exists|k: int|
                0 < k <= schema_sends().len() && final(self).sent() == old(self).sent()
                    + #[trigger] schema_sends().take(k),
    {
        let statements = schema_statements();
        let mut i: usize = 0;
        while i < statements.len()
            invariant
                i <= statements.len(),
                statements@.len() == schema_texts().len(),
                forall|k: int|
                    0 <= k < statements@.len() ==> (#[trigger] statements@[k])@
                        == schema_texts()[k],
                self.sent() == old(self).sent() + schema_sends().take(i as int),
            decreases statements.len() - i,
        {
            let params: Vec<Param> = Vec::new();
            let outcome = self.send_execute(statements[i].as_str(), &params);
            proof {
                assert(param_views(params@) =~= Seq::<ParamView>::empty());
                assert(schema_sends().take(i + 1) =~= schema_sends().take(i as int).push(
                    schema_sends()[i as int],
                ));
            }
            match outcome {
                Ok(_) => {},
                Err(e) => {
                    return Err(StoreError::StorageUnavailable(error_text(&e)));
                },
            }
            i = i + 1;
        }
        Ok(())
    }

    /// Runs one statement that returns no rows.
    pub fn execute(&mut self, sql: &str) -> (done: Result<(), StoreError>)
        ensures
            final(self).sent() == old(self).sent().push(plain(sql@)),
            done matches Err(e) ==> e is QueryError,
    {
        let params: Vec<Param> = Vec::new();
        proof {
            assert(param_views(params@) =~= Seq::<ParamView>::empty());
        }
        match self.send_execute(sql, &params) {
            Ok(_) => Ok(()),
            Err(e) => Err(query_error(error_text(&e))),
        }
    }

    /// Runs a query and reads every row: the column names, and for each row
    /// one value per column. A value that cannot be read counts as null, and
    /// a column without a name is named by the empty string.
    ///
    /// Column names can only be read where they are UTF-8. So the names that
    /// the connection knows are listed first, and the query fails without
    /// being run where one of them is not, or where they cannot be listed.
    pub fn select_values(&mut self, sql: &str) -> (selected: Result<ResultSet, StoreError>)
        ensures
            queried(old(self).sent(), final(self).sent(), sql@),
            selected is Ok ==> final(self).sent().len() == old(self).sent().len() + 2,
            selected matches Ok(results) ==> results.wf(),
            selected matches Err(e) ==> e is QueryError,
    {
        let names_checked = match self.names_decode() {
            Ok(checked) => checked,
            Err(e) => {
                return Err(query_error(error_text(&e)));
            },
        };
        if !names_checked {
            return Err(query_error(String::from_str(UNREADABLE_NAMES_MESSAGE)));
        }
        proof {
            self.sent@ = self.sent@.push(plain(sql@));
        }
        let mut stmt = match conn_prepare(&self.conn, sql) {
            Ok(stmt) => stmt,
            Err(e) => {
                return Err(query_error(error_text(&e)));
            },
        };
        let column_count = stmt_column_count(&stmt);
        let mut columns: Vec<String> = Vec::new();
        let mut c: usize = 0;
        while c < column_count
            invariant
                c <= column_count,
                columns@.len() == c,
                names_checked,
            decreases column_count - c,
        {
            let name = match stmt_column_name(&stmt, c, names_checked) {
                Ok(name) => name,
                Err(_) => String::new(),
            };
            columns.push(name);
            c = c + 1;
        }
        let mut cursor = match stmt_query(&mut stmt, Vec::new()) {
            Ok(cursor) => cursor,
            Err(e) => {
                return Err(query_error(error_text(&e)));
            },
        };
        let mut rows: Vec<Vec<SqlValue>> = Vec::new();
        while rows.len() < usize::MAX
            invariant
                self.sent() == old(self).sent().push(names_listing_sent()).push(plain(sql@)),
                columns@.len() == column_count,
                forall|i: int|
                    0 <= i < rows@.len() ==> (#[trigger] rows@[i])@.len() == column_count,
            decreases usize::MAX - rows.len(),
        {
            match rows_next(&mut cursor) {
                Err(e) => {
                    return Err(query_error(error_text(&e)));
                },
                Ok(None) => {
                    return Ok(ResultSet { columns, rows });
                },
                Ok(Some(row)) => {
                    let mut values: Vec<SqlValue> = Vec::new();
                    let mut k: usize = 0;
                    while k < column_count
                        invariant
                            k <= column_count,
                            values@.len() == k,
                        decreases column_count - k,
                    {
                        let value = match row_value(row, k) {
                            Ok(value) => value,
                            Err(_) => SqlValue::Null,
                        };
                        values.push(value);
                        k = k + 1;
                    }
                    rows.push(values);
                },
            }
        }
        Err(StoreError::QueryError(String::from_str(TOO_MANY_ROWS_MESSAGE)))
    }

    /// Runs a query and renders its rows for the display layer: each row maps
    /// every column name to the text of its value.
    pub fn run_select(&mut self, sql: &str) -> (selected: Result<Vec<TextRow>, StoreError>)
        ensures
            queried(old(self).sent(), final(self).sent(), sql@),
            selected is Ok ==> final(self).sent().len() == old(self).sent().len() + 2,
            selected matches Ok(rows) ==> uniform_rows(rows@),
            selected matches Err(e) ==> e is QueryError,
    {
        match self.select_values(sql) {
            Ok(results) => Ok(text_rows(&results)),
            Err(e) => Err(e),
        }
    }

    /// Runs an arbitrary query; see [`Store::run_select`].
    pub fn query(&mut self, sql: &str) -> (selected: Result<Vec<TextRow>, StoreError>)
        ensures
            queried(old(self).sent(), final(self).sent(), sql@),
            selected is Ok ==> final(self).sent().len() == old(self).sent().len() + 2,
            selected matches Ok(rows) ==> uniform_rows(rows@),
            selected matches Err(e) ==> e is QueryError,
    {
        self.run_select(sql)
    }

    /// Records an observation of an account at time `now` and returns the
    /// account's id: the id of the row that the upsert inserted, or, where it
    /// reported no new row, the id found under the unique key (username,
    /// platform).
    pub fn upsert_account_at(
        &mut self,
        username: &str,
        platform: &str,
        profile_url: Option<&str>,
        now: i64,
    ) -> (id: Result<i64, StoreError>)
        ensures
            account_observed(
                old(self).sent(),
                final(self).sent(),
                username@,
                platform@,
                optional_text(profile_url),
                now as int,
            ),
            id matches Ok(n) ==> final(self).sent().len() == old(self).sent().len() + 1 ==> n > 0,
            id matches Err(e) ==> e is QueryError,
    {
        let params = account_upsert_params(username, platform, profile_url, now);
        let before = conn_last_insert_rowid(&self.conn);
        match self.send_execute(UPSERT_ACCOUNT_SQL, &params) {
            Ok(_) => {},
            Err(e) => {
                return Err(query_error(error_text(&e)));
            },
        }
        match new_row_id(before, conn_last_insert_rowid(&self.conn)) {
            Some(id) => Ok(id),
            None => {
                let key = account_key_params(username, platform);
                self.send_lookup(FIND_ACCOUNT_ID_SQL, &key)
            },
        }
    }

    /// Records an observation of an account at the current time.
    pub fn upsert_account(&mut self, username: &str, platform: &str, profile_url: Option<&str>) -> (id:
        Result<i64, StoreError>)
        ensures
            account_observed_now(
                old(self).sent(),
                final(self).sent(),
                username@,
                platform@,
                optional_text(profile_url),
            ),
            id matches Ok(n) ==> final(self).sent().len() == old(self).sent().len() + 1 ==> n > 0,
            id matches Err(e) ==> e is QueryError,
    {
        let now = unix_now();
        self.upsert_account_at(username, platform, profile_url, now)
    }

    /// All accounts by ascending id.
    pub fn get_accounts(&mut self) -> (selected: Result<Vec<TextRow>, StoreError>)
        ensures
            queried(old(self).sent(), final(self).sent(), SELECT_ACCOUNTS_SQL@),
            selected is Ok ==> final(self).sent().len() == old(self).sent().len() + 2,
            selected matches Ok(rows) ==> uniform_rows(rows@),
            selected matches Err(e) ==> e is QueryError,
    {
        self.run_select(SELECT_ACCOUNTS_SQL)
    }

    /// Appends a relation observed at time `now` and returns the row id that
    /// the engine reports for it.
    pub fn upsert_relation_at(
        &mut self,
        source_account_id: i64,
        destination_account_id: i64,
        now: i64,
    ) -> (id: Result<i64, StoreError>)
        ensures
            final(self).sent() == old(self).sent().push(
                relation_insert_sent(
                    source_account_id as int,
                    destination_account_id as int,
                    now as int,
                ),
            ),
            id matches Err(e) ==> e is QueryError,
    {
        let params = relation_insert_params(source_account_id, destination_account_id, now);
        match self.send_execute(INSERT_RELATION_SQL, &params) {
            Ok(_) => Ok(conn_last_insert_rowid(&self.conn)),
            Err(e) => Err(query_error(error_text(&e))),
        }
    }

    /// Appends a relation observed at the current time.
    pub fn upsert_relation(&mut self, source_account_id: i64, destination_account_id: i64) -> (id:
        Result<i64, StoreError>)
        ensures
            relation_observed_now(
                old(self).sent(),
                final(self).sent(),
                source_account_id as int,
                destination_account_id as int,
            ),
            id matches Err(e) ==> e is QueryError,
    {
        let now = unix_now();
        self.upsert_relation_at(source_account_id, destination_account_id, now)
    }

    /// All relations by ascending id.
    pub fn get_relations(&mut self) -> (selected: Result<Vec<TextRow>, StoreError>)
        ensures
            queried(old(self).sent(), final(self).sent(), SELECT_RELATIONS_SQL@),
            selected is Ok ==> final(self).sent().len() == old(self).sent().len() + 2,
            selected matches Ok(rows) ==> uniform_rows(rows@),
            selected matches Err(e) ==> e is QueryError,
    {
        self.run_select(SELECT_RELATIONS_SQL)
    }

    /// Records an observation of a connected pair at time `now`, the ids in
    /// either order, and returns the pair's id: the id of the row that the
    /// upsert inserted, or, where it reported no new row, the id found under
    /// the canonical pair.
    pub fn upsert_connected_pair_at(&mut self, account_id_1: i64, account_id_2: i64, now: i64) -> (id:
        Result<i64, StoreError>)
        ensures
            pair_observed(
                old(self).sent(),
                final(self).sent(),
                account_id_1 as int,
                account_id_2 as int,
                now as int,
            ),
            id matches Ok(n) ==> final(self).sent().len() == old(self).sent().len() + 1 ==> n > 0,
            id matches Err(e) ==> e is QueryError,
    {
        let params = pair_upsert_params(account_id_1, account_id_2, now);
        let before = conn_last_insert_rowid(&self.conn);
        match self.send_execute(UPSERT_CONNECTED_ACCOUNT_SQL, &params) {
            Ok(_) => {},
            Err(e) => {
                return Err(query_error(error_text(&e)));
            },
        }
        match new_row_id(before, conn_last_insert_rowid(&self.conn)) {
            Some(id) => Ok(id),
            None => {
                let key = pair_key_params(account_id_1, account_id_2);
                self.send_lookup(FIND_CONNECTED_ACCOUNT_ID_SQL, &key)
            },
        }
    }

    /// Records an observation of a connected pair at the current time.
    pub fn upsert_connected_pair(&mut self, account_id_1: i64, account_id_2: i64) -> (id: Result<
        i64,
        StoreError,
    >)
        ensures
            pair_observed_now(
                old(self).sent(),
                final(self).sent(),
                account_id_1 as int,
                account_id_2 as int,
            ),
            id matches Ok(n) ==> final(self).sent().len() == old(self).sent().len() + 1 ==> n > 0,
            id matches Err(e) ==> e is QueryError,
    {
        let now = unix_now();
        self.upsert_connected_pair_at(account_id_1, account_id_2, now)
    }

    /// All connected pairs by ascending id.
    pub fn get_connected_pairs(&mut self) -> (selected: Result<Vec<TextRow>, StoreError>)
        ensures
            queried(old(self).sent(), final(self).sent(), SELECT_CONNECTED_ACCOUNTS_SQL@),
            selected is Ok ==> final(self).sent().len() == old(self).sent().len() + 2,
            selected matches Ok(rows) ==> uniform_rows(rows@),
            selected matches Err(e) ==> e is QueryError,
    {
        self.run_select(SELECT_CONNECTED_ACCOUNTS_SQL)
    }
}

} // verus!
