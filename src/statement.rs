//! A statement for the storage engine: its SQL text, the values bound to its
//! numbered parameters, and how many rows the caller takes from it.
use vstd::prelude::*;
use crate::error::{DatabaseError, StorageFailure, maps_failure};

verus! {

/// A value bound to a statement parameter. The value at index `i` of a
/// statement's parameters is bound to `$i+1` in its SQL text.
#[derive(Debug, Clone, PartialEq, Eq)]
pub enum SqlValue {
    /// A 128-bit identifier, stored as its 16 big-endian bytes.
    Uuid(u128),
    Text(String),
    Bool(bool),
    Int(i32),
    Blob(Vec<u8>),
}

/// How many rows a statement is run for.
#[derive(Debug, Clone, Copy, PartialEq, Eq, Structural)]
pub enum Fetch {
    /// Exactly one row is owed; none is a not-found error.
    One,
    /// At most one row; none is an empty result.
    Optional,
    /// Every matching row.
    All,
}

/// One statement, ready to be run against the pool.
#[derive(Debug, Clone, PartialEq, Eq)]
pub struct Statement {
    pub sql: &'static str,
    pub params: Vec<SqlValue>,
    pub fetch: Fetch,
}

/// `p` is a binary parameter holding `bytes`.
pub open spec fn is_blob(p: SqlValue, bytes: Seq<u8>) -> bool {
    p matches SqlValue::Blob(b) && b@ == bytes
}

/// `s` runs `sql` for `fetch` rows with the identifier `id` as its one
/// parameter.
pub open spec fn is_keyed(s: Statement, sql: &'static str, id: u128, fetch: Fetch) -> bool {
    s.sql == sql && s.params@ == seq![SqlValue::Uuid(id)] && s.fetch == fetch
}

/// A statement whose one parameter is an identifier.
pub fn keyed(sql: &'static str, id: u128, fetch: Fetch) -> (r: Statement)
    ensures
        is_keyed(r, sql, id, fetch),
{
    let mut params: Vec<SqlValue> = Vec::new();
    params.push(SqlValue::Uuid(id));
    proof {
        assert(params@ =~= seq![SqlValue::Uuid(id)]);
    }
    Statement { sql, params, fetch }
}

/// A statement whose one parameter is a text value.
pub fn keyed_text(sql: &'static str, text: String, fetch: Fetch) -> (r: Statement)
    ensures
        r.sql == sql,
        r.params@ == seq![SqlValue::Text(text)],
        r.fetch == fetch,
{
    let mut params: Vec<SqlValue> = Vec::new();
    params.push(SqlValue::Text(text));
    proof {
        assert(params@ =~= seq![SqlValue::Text(text)]);
    }
    Statement { sql, params, fetch }
}

/// `r` is what a statement run for exactly one row yields, given the rows
/// the engine returned (or its failure).
pub open spec fn is_one_row<T>(outcome: Result<Vec<T>, StorageFailure>, r: Result<T, DatabaseError>) -> bool {
    match outcome {
        Ok(rows) => if rows@.len() == 0 {
            r == Err::<T, DatabaseError>(DatabaseError::NotFound)
        } else {
            r == Ok::<T, DatabaseError>(rows@[0])
        },
        Err(f) => r matches Err(e) && maps_failure(f, e),
    }
}

/// `r` is what a statement run for at most one row yields. No matching
/// row, whether as an empty answer or as the engine's `RowNotFound`, is an
/// empty result: the one failure a probe absorbs.
pub open spec fn is_optional_row<T>(
    outcome: Result<Vec<T>, StorageFailure>,
    r: Result<Option<T>, DatabaseError>,
) -> bool {
    match outcome {
        Ok(rows) => if rows@.len() == 0 {
            r == Ok::<Option<T>, DatabaseError>(None)
        } else {
            r == Ok::<Option<T>, DatabaseError>(Some(rows@[0]))
        },
        Err(StorageFailure::RowNotFound) => r == Ok::<Option<T>, DatabaseError>(None),
        Err(f) => r matches Err(e) && maps_failure(f, e),
    }
}

/// `r` is what a statement run for every matching row yields.
pub open spec fn is_all_rows<T>(
    outcome: Result<Vec<T>, StorageFailure>,
    r: Result<Vec<T>, DatabaseError>,
) -> bool {
    match outcome {
        Ok(rows) => r matches Ok(v) && v@ == rows@,
        Err(f) => r matches Err(e) && maps_failure(f, e),
    }
}

/// The result of a statement that owes one row: the first row returned,
/// `NotFound` when there is none, the mapped failure otherwise.
pub fn one_row<T>(outcome: Result<Vec<T>, StorageFailure>) -> (r: Result<T, DatabaseError>)
    ensures
        is_one_row(outcome, r),
{
    match outcome {
        Ok(mut rows) => {
            if rows.len() == 0 {
                Err(DatabaseError::NotFound)
            } else {
                Ok(rows.swap_remove(0))
            }
        },
        Err(f) => Err(DatabaseError::from_failure(f)),
    }
}

/// The result of a probe: the first row returned, nothing when there is
/// none, the mapped failure otherwise. A missing row is not an error here.
pub fn optional_row<T>(outcome: Result<Vec<T>, StorageFailure>) -> (r: Result<
    Option<T>,
    DatabaseError,
>)
    ensures
        is_optional_row(outcome, r),
{
    match outcome {
        Ok(mut rows) => {
            if rows.len() == 0 {
                Ok(None)
            } else {
                Ok(Some(rows.swap_remove(0)))
            }
        },
        Err(StorageFailure::RowNotFound) => Ok(None),
        Err(f) => Err(DatabaseError::from_failure(f)),
    }
}

/// The result of a bulk query: every row returned, in the engine's order,
/// or the mapped failure.
pub fn all_rows<T>(outcome: Result<Vec<T>, StorageFailure>) -> (r: Result<Vec<T>, DatabaseError>)
    ensures
        is_all_rows(outcome, r),
{
    match outcome {
        Ok(rows) => Ok(rows),
        Err(f) => Err(DatabaseError::from_failure(f)),
    }
}

/// On one and the same answer of the engine, the probe and the lookup that
/// owes a row agree: the probe is empty exactly when the lookup is
/// `NotFound`, it holds the row exactly when the lookup returns it, and
/// any other failure is mapped alike for both.
pub proof fn lemma_probe_agrees_with_lookup<T>(
    outcome: Result<Vec<T>, StorageFailure>,
    got: Result<T, DatabaseError>,
    probed: Result<Option<T>, DatabaseError>,
)
    requires
        is_one_row(outcome, got),
        is_optional_row(outcome, probed),
    ensures
        (probed == Ok::<Option<T>, DatabaseError>(None)) <==> (got == Err::<T, DatabaseError>(
            DatabaseError::NotFound,
        )),
        forall|x: T|
            (probed == Ok::<Option<T>, DatabaseError>(Some(x))) <==> (got == Ok::<T, DatabaseError>(x)),
        forall|f: StorageFailure|
            outcome == Err::<Vec<T>, StorageFailure>(f) && f != StorageFailure::RowNotFound ==> {
                &&& got matches Err(e) && maps_failure(f, e)
                &&& probed matches Err(e) && maps_failure(f, e)
            },
{
}

} // verus!
