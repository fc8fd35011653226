//! The store commands offered to the user interface.
//!
//! Each command works on the application's store slot, which is empty until a
//! store was opened and stays empty when opening failed. On an empty slot
//! every command fails with [`StoreError::NotInitialized`] and hands nothing
//! to the engine; otherwise it is the operation of the same name on the
//! store.

use vstd::prelude::*;
use crate::errors::StoreError;
use crate::rows::{uniform_rows, TextRow};
use crate::statements::{
    optional_text,
    SELECT_ACCOUNTS_SQL,
    SELECT_CONNECTED_ACCOUNTS_SQL,
    SELECT_RELATIONS_SQL,
};
use crate::store::{
    account_observed_now,
    pair_observed_now,
    plain,
    queried,
    relation_observed_now,
    Store,
};

verus! {

/// The slot is empty before and after, and the command failed for that
/// reason.
pub open spec fn refused_on_empty<T>(
    before: Option<Store>,
    after: Option<Store>,
    outcome: Result<T, StoreError>,
) -> bool {
    before is None ==> after is None && outcome matches Err(StoreError::NotInitialized)
}

/// Runs one statement that returns no rows.
pub fn db_execute(state: &mut Option<Store>, sql: &str) -> (done: Result<(), StoreError>)
    ensures
        refused_on_empty(*old(state), *final(state), done),
        *old(state) matches Some(before) ==> *final(state) matches Some(after) && after.sent()
            == before.sent().push(plain(sql@)) && (done matches Err(e) ==> e is QueryError),
{
    match state {
        Some(store) => store.execute(sql),
        None => Err(StoreError::NotInitialized),
    }
}

/// Runs a query and renders its rows as text.
pub fn db_query(state: &mut Option<Store>, sql: &str) -> (selected: Result<
    Vec<TextRow>,
    StoreError,
>)
    ensures
        refused_on_empty(*old(state), *final(state), selected),
        *old(state) matches Some(before) ==> *final(state) matches Some(after) && queried(
            before.sent(),
            after.sent(),
            sql@,
        ) && (selected is Ok ==> after.sent().len() == before.sent().len() + 2) && (
        selected matches Err(e) ==> e is QueryError),
        selected matches Ok(rows) ==> uniform_rows(rows@),
{
    match state {
        Some(store) => store.query(sql),
        None => Err(StoreError::NotInitialized),
    }
}

/// Records an observation of an account at the current time and returns the
/// account's id.
pub fn db_upsert_account(
    state: &mut Option<Store>,
    username: &str,
    platform: &str,
    profile_url: Option<&str>,
) -> (id: Result<i64, StoreError>)
    ensures
        refused_on_empty(*old(state), *final(state), id),
        *old(state) matches Some(before) ==> *final(state) matches Some(after)
            && account_observed_now(
            before.sent(),
            after.sent(),
            username@,
            platform@,
            optional_text(profile_url),
        ) && (id matches Ok(n) ==> after.sent().len() == before.sent().len() + 1 ==> n > 0) && (
        id matches Err(e) ==> e is QueryError),
{
    match state {
        Some(store) => store.upsert_account(username, platform, profile_url),
        None => Err(StoreError::NotInitialized),
    }
}

/// All accounts by ascending id.
pub fn db_get_accounts(state: &mut Option<Store>) -> (selected: Result<Vec<TextRow>, StoreError>)
    ensures
        refused_on_empty(*old(state), *final(state), selected),
        *old(state) matches Some(before) ==> *final(state) matches Some(after) && queried(
            before.sent(),
            after.sent(),
            SELECT_ACCOUNTS_SQL@,
        ) && (selected is Ok ==> after.sent().len() == before.sent().len() + 2) && (
        selected matches Err(e) ==> e is QueryError),
        selected matches Ok(rows) ==> uniform_rows(rows@),
{
    match state {
        Some(store) => store.get_accounts(),
        None => Err(StoreError::NotInitialized),
    }
}

/// Appends a relation observed at the current time and returns its row id.
pub fn db_upsert_relation(
    state: &mut Option<Store>,
    source_account_id: i64,
    destination_account_id: i64,
) -> (id: Result<i64, StoreError>)
    ensures
        refused_on_empty(*old(state), *final(state), id),
        *old(state) matches Some(before) ==> *final(state) matches Some(after)
            && relation_observed_now(
            before.sent(),
            after.sent(),
            source_account_id as int,
            destination_account_id as int,
        ) && (id matches Err(e) ==> e is QueryError),
{
    match state {
        Some(store) => store.upsert_relation(source_account_id, destination_account_id),
        None => Err(StoreError::NotInitialized),
    }
}

/// All relations by ascending id.
pub fn db_get_relations(state: &mut Option<Store>) -> (selected: Result<Vec<TextRow>, StoreError>)
    ensures
        refused_on_empty(*old(state), *final(state), selected),
        *old(state) matches Some(before) ==> *final(state) matches Some(after) && queried(
            before.sent(),
            after.sent(),
            SELECT_RELATIONS_SQL@,
        ) && (selected is Ok ==> after.sent().len() == before.sent().len() + 2) && (
        selected matches Err(e) ==> e is QueryError),
        selected matches Ok(rows) ==> uniform_rows(rows@),
{
    match state {
        Some(store) => store.get_relations(),
        None => Err(StoreError::NotInitialized),
    }
}

/// Records an observation of a connected pair at the current time, the ids in
/// either order, and returns the pair's id.
pub fn db_upsert_connected_account(
    state: &mut Option<Store>,
    account_id_1: i64,
    account_id_2: i64,
) -> (id: Result<i64, StoreError>)
    ensures
        refused_on_empty(*old(state), *final(state), id),
        *old(state) matches Some(before) ==> *final(state) matches Some(after)
            && pair_observed_now(
            before.sent(),
            after.sent(),
            account_id_1 as int,
            account_id_2 as int,
        ) && (id matches Ok(n) ==> after.sent().len() == before.sent().len() + 1 ==> n > 0) && (
        id matches Err(e) ==> e is QueryError),
{
    match state {
        Some(store) => store.upsert_connected_pair(account_id_1, account_id_2),
        None => Err(StoreError::NotInitialized),
    }
}

/// All connected pairs by ascending id.
pub fn db_get_connected_accounts(state: &mut Option<Store>) -> (selected: Result<
    Vec<TextRow>,
    StoreError,
>)
    ensures
        refused_on_empty(*old(state), *final(state), selected),
        *old(state) matches Some(before) ==> *final(state) matches Some(after) && queried(
            before.sent(),
            after.sent(),
            SELECT_CONNECTED_ACCOUNTS_SQL@,
        ) && (selected is Ok ==> after.sent().len() == before.sent().len() + 2) && (
        selected matches Err(e) ==> e is QueryError),
        selected matches Ok(rows) ==> uniform_rows(rows@),
{
    match state {
        Some(store) => store.get_connected_pairs(),
        None => Err(StoreError::NotInitialized),
    }
}

} // verus!
