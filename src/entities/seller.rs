//! Sellers of an organization.
use vstd::prelude::*;
use crate::error::DatabaseError;
use crate::repository::EntityRepository;
use crate::statement::{Fetch, SqlValue, Statement, is_keyed, keyed, keyed_text};

verus! {

/// Selects one seller.
#[derive(Debug, Clone, PartialEq, Eq)]
pub enum SellerBy {
    Id(u128),
    /// Emails are unique, so this selects at most one.
    Email(String),
}

/// A stored seller. `created_at` is set by storage, in seconds since the
/// Unix epoch.
#[derive(Debug, Clone, PartialEq, Eq)]
pub struct SellerDAO {
    pub id: u128,
    pub organization_id: u128,
    pub email: String,
    pub password: String,
    pub active: bool,
    pub created_at: i64,
}

/// What creating a seller takes; a seller starts active.
#[derive(Debug, Clone, PartialEq, Eq)]
pub struct NewSellerDAO {
    pub organization_id: u128,
    pub email: String,
    pub password: String,
}

/// The fields an update may change.
#[derive(Debug, Clone, PartialEq, Eq)]
pub struct UpdateSellerDAO {
    pub password: String,
    pub active: bool,
}

/// Statements over the `sellers` table.
#[derive(Debug)]
pub struct SellerRepository;

pub const SELLER_INSERT: &'static str =
    "INSERT INTO sellers (id, organization_id, email, password) VALUES ($1, $2, $3, $4) RETURNING id, organization_id, email, password, active, created_at";

pub const SELLER_BY_EMAIL: &'static str =
    "SELECT id, organization_id, email, password, active, created_at FROM sellers WHERE email = $1 LIMIT 1";

pub const SELLER_BY_ID: &'static str =
    "SELECT id, organization_id, email, password, active, created_at FROM sellers WHERE id = $1 LIMIT 1";

pub const SELLER_UPDATE: &'static str =
    "UPDATE sellers SET password = $2, active = $3 WHERE id = $1 RETURNING id, organization_id, email, password, active, created_at";

pub const SELLER_DELETE: &'static str =
    "DELETE FROM sellers WHERE id = $1 RETURNING id, organization_id, email, password, active, created_at";

/// The insert statement that gives a new seller the identifier `id`.
pub open spec fn seller_insert(input: NewSellerDAO, id: u128, s: Statement) -> bool {
    &&& s.sql == SELLER_INSERT
    &&& s.params@ == seq![
        SqlValue::Uuid(id),
        SqlValue::Uuid(input.organization_id),
        SqlValue::Text(input.email),
        SqlValue::Text(input.password),
    ]
    &&& s.fetch == Fetch::One
}

/// The update statement for the seller with identifier `id`.
pub open spec fn seller_update(id: u128, input: UpdateSellerDAO, s: Statement) -> bool {
    &&& s.sql == SELLER_UPDATE
    &&& s.params@ == seq![SqlValue::Uuid(id), SqlValue::Text(input.password), SqlValue::Bool(input.active)]
    &&& s.fetch == Fetch::One
}

/// `row` holds the values that the insert statement `s` bound, and the
/// default `active` flag, true; `created_at` is the engine's.
pub open spec fn seller_row_inserted(s: Statement, row: SellerDAO) -> bool {
    &&& s.params@[0] == SqlValue::Uuid(row.id)
    &&& s.params@[1] == SqlValue::Uuid(row.organization_id)
    &&& s.params@[2] == SqlValue::Text(row.email)
    &&& s.params@[3] == SqlValue::Text(row.password)
    &&& row.active
}

/// `after` is `before` once the update statement `s` has run on it: the
/// bound columns replaced, the rest kept.
pub open spec fn seller_row_updated(before: SellerDAO, s: Statement, after: SellerDAO) -> bool {
    &&& s.params@[0] == SqlValue::Uuid(before.id)
    &&& after.id == before.id
    &&& after.organization_id == before.organization_id
    &&& after.email == before.email
    &&& after.created_at == before.created_at
    &&& s.params@[1] == SqlValue::Text(after.password)
    &&& s.params@[2] == SqlValue::Bool(after.active)
}

impl EntityRepository<SellerDAO, NewSellerDAO, UpdateSellerDAO, SellerBy, SellerBy> for SellerRepository {
    open spec fn get_plan(key: SellerBy, r: Result<Statement, DatabaseError>) -> bool {
        match key {
            SellerBy::Id(id) => r matches Ok(s) && is_keyed(s, SELLER_BY_ID, id, Fetch::One),
            SellerBy::Email(email) => r matches Ok(s) && s.sql == SELLER_BY_EMAIL && s.params@ == seq![
                SqlValue::Text(email),
            ] && s.fetch == Fetch::One,
        }
    }

    open spec fn try_get_plan(key: SellerBy, r: Result<Statement, DatabaseError>) -> bool {
        match key {
            SellerBy::Id(id) => r matches Ok(s) && is_keyed(s, SELLER_BY_ID, id, Fetch::Optional),
            SellerBy::Email(email) => r matches Ok(s) && s.sql == SELLER_BY_EMAIL && s.params@ == seq![
                SqlValue::Text(email),
            ] && s.fetch == Fetch::Optional,
        }
    }

    /// Listing is not offered.
    open spec fn get_all_plan(key: SellerBy, r: Result<Statement, DatabaseError>) -> bool {
        r == Err::<Statement, DatabaseError>(DatabaseError::NotImplemented)
    }

    open spec fn insert_plan(input: NewSellerDAO, id: u128, r: Result<Statement, DatabaseError>) -> bool {
        r matches Ok(s) && seller_insert(input, id, s)
    }

    open spec fn update_plan(key: SellerBy, input: UpdateSellerDAO, r: Result<Statement, DatabaseError>) -> bool {
        match key {
            SellerBy::Id(id) => r matches Ok(s) && seller_update(id, input, s),
            SellerBy::Email(_) => r == Err::<Statement, DatabaseError>(DatabaseError::NotImplemented),
        }
    }

    open spec fn delete_plan(key: SellerBy, r: Result<Statement, DatabaseError>) -> bool {
        match key {
            SellerBy::Id(id) => r matches Ok(s) && is_keyed(s, SELLER_DELETE, id, Fetch::One),
            SellerBy::Email(_) => r == Err::<Statement, DatabaseError>(DatabaseError::NotImplemented),
        }
    }

    fn get(key: SellerBy) -> (r: Result<Statement, DatabaseError>) {
        match key {
            SellerBy::Id(id) => Ok(keyed(SELLER_BY_ID, id, Fetch::One)),
            SellerBy::Email(email) => Ok(keyed_text(SELLER_BY_EMAIL, email, Fetch::One)),
        }
    }

    fn try_get(key: SellerBy) -> (r: Result<Statement, DatabaseError>) {
        match key {
            SellerBy::Id(id) => Ok(keyed(SELLER_BY_ID, id, Fetch::Optional)),
            SellerBy::Email(email) => Ok(keyed_text(SELLER_BY_EMAIL, email, Fetch::Optional)),
        }
    }

    fn get_all(key: SellerBy) -> (r: Result<Statement, DatabaseError>) {
        Err(DatabaseError::NotImplemented)
    }

    fn insert_with_id(input: NewSellerDAO, id: u128) -> (r: Result<Statement, DatabaseError>) {
        let ghost g = input;
        let mut params: Vec<SqlValue> = Vec::new();
        params.push(SqlValue::Uuid(id));
        params.push(SqlValue::Uuid(input.organization_id));
        params.push(SqlValue::Text(input.email));
        params.push(SqlValue::Text(input.password));
        proof {
            assert(params@ =~= seq![
                SqlValue::Uuid(id),
                SqlValue::Uuid(g.organization_id),
                SqlValue::Text(g.email),
                SqlValue::Text(g.password),
            ]);
        }
        Ok(Statement { sql: SELLER_INSERT, params, fetch: Fetch::One })
    }

    fn update(key: SellerBy, input: UpdateSellerDAO) -> (r: Result<Statement, DatabaseError>) {
        match key {
            SellerBy::Id(id) => {
                let ghost g = input;
                let mut params: Vec<SqlValue> = Vec::new();
                params.push(SqlValue::Uuid(id));
                params.push(SqlValue::Text(input.password));
                params.push(SqlValue::Bool(input.active));
                proof {
                    assert(params@ =~= seq![SqlValue::Uuid(id), SqlValue::Text(g.password), SqlValue::Bool(g.active)]);
                }
                Ok(Statement { sql: SELLER_UPDATE, params, fetch: Fetch::One })
            },
            SellerBy::Email(_) => Err(DatabaseError::NotImplemented),
        }
    }

    fn delete(key: SellerBy) -> (r: Result<Statement, DatabaseError>) {
        match key {
            SellerBy::Id(id) => Ok(keyed(SELLER_DELETE, id, Fetch::One)),
            SellerBy::Email(_) => Err(DatabaseError::NotImplemented),
        }
    }
}

/// A seller read back from the row that its insert stored has the
/// payload's organization, email and password, the identifier the insert
/// assigned, and is active.
pub proof fn lemma_seller_insert_read_back(input: NewSellerDAO, id: u128, s: Statement, row: SellerDAO)
    requires
        seller_insert(input, id, s),
        seller_row_inserted(s, row),
    ensures
        row.id == id,
        row.organization_id == input.organization_id,
        row.email == input.email,
        row.password == input.password,
        row.active,
{
}

/// An update changes exactly the fields of its payload: password and
/// `active`; identifier, organization, email and creation time stay.
pub proof fn lemma_seller_update_read_back(
    id: u128,
    input: UpdateSellerDAO,
    s: Statement,
    before: SellerDAO,
    after: SellerDAO,
)
    requires
        seller_update(id, input, s),
        seller_row_updated(before, s, after),
    ensures
        after.id == before.id,
        after.id == id,
        after.organization_id == before.organization_id,
        after.email == before.email,
        after.created_at == before.created_at,
        after.password == input.password,
        after.active == input.active,
{
}

} // verus!
