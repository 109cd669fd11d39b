//! The operations that every entity repository offers, each planned as one
//! statement for the caller to run.
use vstd::prelude::*;
use crate::error::DatabaseError;
use crate::id::{is_random_id, new_id};
use crate::statement::Statement;

verus! {

/// A repository over one entity: `Entity` is the stored shape,
/// `CreateInput` what creating takes, `UpdateInput` the fields an update
/// may change, `QueryOne` a selector of one row and `QueryMany` a selector
/// of many.
///
/// Each operation returns the statement to run, or the error with which
/// the repository refuses the selector (`NotImplemented`). The caller runs
/// the statement and reads its rows with `one_row` (for `get`, `insert`,
/// `update`, `delete`), `optional_row` (for `try_get`) or `all_rows` (for
/// `get_all`).
pub trait EntityRepository<Entity, CreateInput, UpdateInput, QueryOne, QueryMany> {
    /// `r` is what `get` plans for `key`.
    spec fn get_plan(key: QueryOne, r: Result<Statement, DatabaseError>) -> bool;

    /// `r` is what `try_get` plans for `key`.
    spec fn try_get_plan(key: QueryOne, r: Result<Statement, DatabaseError>) -> bool;

    /// `r` is what `get_all` plans for `key`.
    spec fn get_all_plan(key: QueryMany, r: Result<Statement, DatabaseError>) -> bool;

    /// `r` is what creating from `input` under the identifier `id` plans.
    spec fn insert_plan(input: CreateInput, id: u128, r: Result<Statement, DatabaseError>) -> bool;

    /// `r` is what `update` plans for `key` and `input`.
    spec fn update_plan(key: QueryOne, input: UpdateInput, r: Result<Statement, DatabaseError>) -> bool;

    /// `r` is what `delete` plans for `key`.
    spec fn delete_plan(key: QueryOne, r: Result<Statement, DatabaseError>) -> bool;

    /// Looks one row up; none matching is `NotFound`.
    fn get(key: QueryOne) -> (r: Result<Statement, DatabaseError>)
        ensures
            Self::get_plan(key, r),
    ;

    /// Looks one row up; none matching is an empty result.
    fn try_get(key: QueryOne) -> (r: Result<Statement, DatabaseError>)
        ensures
            Self::try_get_plan(key, r),
    ;

    /// Lists the rows that `key` selects.
    fn get_all(key: QueryMany) -> (r: Result<Statement, DatabaseError>)
        ensures
            Self::get_all_plan(key, r),
    ;

    /// Creates a row under the given identifier and returns it.
    fn insert_with_id(input: CreateInput, id: u128) -> (r: Result<Statement, DatabaseError>)
        ensures
            Self::insert_plan(input, id, r),
    ;

    /// Creates a row under a fresh random identifier and returns it. A
    /// violated constraint makes the engine fail it (`QueryFailed`).
    fn insert(input: CreateInput) -> (r: Result<Statement, DatabaseError>)
        ensures
            exists|id: u128| is_random_id(id) && Self::insert_plan(input, id, r),
    {
        let id = new_id();
        Self::insert_with_id(input, id)
    }

    /// Changes the fields of `input` in the selected row and returns it.
    fn update(key: QueryOne, input: UpdateInput) -> (r: Result<Statement, DatabaseError>)
        ensures
            Self::update_plan(key, input, r),
    ;

    /// Removes the selected row and returns it. While other rows refer to
    /// it, the engine rejects this (`QueryFailed`).
    fn delete(key: QueryOne) -> (r: Result<Statement, DatabaseError>)
        ensures
            Self::delete_plan(key, r),
    ;
}

} // verus!
