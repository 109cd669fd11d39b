//! Administrators of an organization.
use vstd::prelude::*;
use crate::error::DatabaseError;
use crate::repository::EntityRepository;
use crate::statement::{Fetch, SqlValue, Statement, is_keyed, keyed, keyed_text};

verus! {

/// Selects one administrator.
#[derive(Debug, Clone, PartialEq, Eq)]
pub enum AdminBy {
    Id(u128),
    /// Emails are unique, so this selects at most one.
    Email(String),
}

/// A stored administrator. The password is kept as given.
#[derive(Debug, Clone, PartialEq, Eq)]
pub struct AdminDAO {
    pub id: u128,
    pub organization_id: u128,
    pub email: String,
    pub password: String,
    pub is_default: bool,
}

/// What creating an administrator takes.
#[derive(Debug, Clone, PartialEq, Eq)]
pub struct NewAdminDAO {
    pub organization_id: u128,
    pub email: String,
    pub password: String,
    pub is_default: bool,
}

/// The fields an update may change.
#[derive(Debug, Clone, PartialEq, Eq)]
pub struct UpdateAdminDAO {
    pub password: String,
    pub is_default: bool,
}

impl From<AdminDAO> for NewAdminDAO {
    /// The creation payload that would store `value` again.
    fn from(value: AdminDAO) -> (r: NewAdminDAO) {
        NewAdminDAO {
            organization_id: value.organization_id,
            email: value.email,
            password: value.password,
            is_default: value.is_default,
        }
    }
}

impl vstd::std_specs::convert::FromSpecImpl<AdminDAO> for NewAdminDAO {
    open spec fn obeys_from_spec() -> bool {
        true
    }

    open spec fn from_spec(value: AdminDAO) -> NewAdminDAO {
        NewAdminDAO {
            organization_id: value.organization_id,
            email: value.email,
            password: value.password,
            is_default: value.is_default,
        }
    }
}

/// Statements over the `admins` table.
#[derive(Debug)]
pub struct AdminRepository;

pub const ADMIN_INSERT: &'static str =
    "INSERT INTO admins (id, organization_id, email, password, is_default) VALUES ($1, $2, $3, $4, $5) RETURNING id, organization_id, email, password, is_default";

pub const ADMIN_BY_EMAIL: &'static str =
    "SELECT id, organization_id, email, password, is_default FROM admins WHERE email = $1 LIMIT 1";

pub const ADMIN_BY_ID: &'static str =
    "SELECT id, organization_id, email, password, is_default FROM admins WHERE id = $1 LIMIT 1";

pub const ADMIN_UPDATE: &'static str =
    "UPDATE admins SET password = $2, is_default = $3 WHERE id = $1 RETURNING id, organization_id, email, password, is_default";

pub const ADMIN_DELETE: &'static str =
    "DELETE FROM admins WHERE id = $1 RETURNING id, organization_id, email, password, is_default";

/// The insert statement that gives a new administrator the identifier `id`.
pub open spec fn admin_insert(input: NewAdminDAO, id: u128, s: Statement) -> bool {
    &&& s.sql == ADMIN_INSERT
    &&& s.params@ == seq![
        SqlValue::Uuid(id),
        SqlValue::Uuid(input.organization_id),
        SqlValue::Text(input.email),
        SqlValue::Text(input.password),
        SqlValue::Bool(input.is_default),
    ]
    &&& s.fetch == Fetch::One
}

/// The update statement for the administrator with identifier `id`.
pub open spec fn admin_update(id: u128, input: UpdateAdminDAO, s: Statement) -> bool {
    &&& s.sql == ADMIN_UPDATE
    &&& s.params@ == seq![SqlValue::Uuid(id), SqlValue::Text(input.password), SqlValue::Bool(input.is_default)]
    &&& s.fetch == Fetch::One
}

/// `row` holds, column by column, the values that the insert statement `s`
/// bound.
pub open spec fn admin_row_inserted(s: Statement, row: AdminDAO) -> bool {
    &&& s.params@[0] == SqlValue::Uuid(row.id)
    &&& s.params@[1] == SqlValue::Uuid(row.organization_id)
    &&& s.params@[2] == SqlValue::Text(row.email)
    &&& s.params@[3] == SqlValue::Text(row.password)
    &&& s.params@[4] == SqlValue::Bool(row.is_default)
}

/// `after` is `before` once the update statement `s` has run on it: the
/// bound columns replaced, the rest kept.
pub open spec fn admin_row_updated(before: AdminDAO, s: Statement, after: AdminDAO) -> bool {
    &&& s.params@[0] == SqlValue::Uuid(before.id)
    &&& after.id == before.id
    &&& after.organization_id == before.organization_id
    &&& after.email == before.email
    &&& s.params@[1] == SqlValue::Text(after.password)
    &&& s.params@[2] == SqlValue::Bool(after.is_default)
}

impl EntityRepository<AdminDAO, NewAdminDAO, UpdateAdminDAO, AdminBy, AdminBy> for AdminRepository {
    open spec fn get_plan(key: AdminBy, r: Result<Statement, DatabaseError>) -> bool {
        match key {
            AdminBy::Id(id) => r matches Ok(s) && is_keyed(s, ADMIN_BY_ID, id, Fetch::One),
            AdminBy::Email(email) => r matches Ok(s) && s.sql == ADMIN_BY_EMAIL && s.params@ == seq![
                SqlValue::Text(email),
            ] && s.fetch == Fetch::One,
        }
    }

    open spec fn try_get_plan(key: AdminBy, r: Result<Statement, DatabaseError>) -> bool {
        match key {
            AdminBy::Id(id) => r matches Ok(s) && is_keyed(s, ADMIN_BY_ID, id, Fetch::Optional),
            AdminBy::Email(email) => r matches Ok(s) && s.sql == ADMIN_BY_EMAIL && s.params@ == seq![
                SqlValue::Text(email),
            ] && s.fetch == Fetch::Optional,
        }
    }

    /// Listing is not offered.
    open spec fn get_all_plan(key: AdminBy, r: Result<Statement, DatabaseError>) -> bool {
        r == Err::<Statement, DatabaseError>(DatabaseError::NotImplemented)
    }

    open spec fn insert_plan(input: NewAdminDAO, id: u128, r: Result<Statement, DatabaseError>) -> bool {
        r matches Ok(s) && admin_insert(input, id, s)
    }

    open spec fn update_plan(key: AdminBy, input: UpdateAdminDAO, r: Result<Statement, DatabaseError>) -> bool {
        match key {
            AdminBy::Id(id) => r matches Ok(s) && admin_update(id, input, s),
            AdminBy::Email(_) => r == Err::<Statement, DatabaseError>(DatabaseError::NotImplemented),
        }
    }

    open spec fn delete_plan(key: AdminBy, r: Result<Statement, DatabaseError>) -> bool {
        match key {
            AdminBy::Id(id) => r matches Ok(s) && is_keyed(s, ADMIN_DELETE, id, Fetch::One),
            AdminBy::Email(_) => r == Err::<Statement, DatabaseError>(DatabaseError::NotImplemented),
        }
    }

    fn get(key: AdminBy) -> (r: Result<Statement, DatabaseError>) {
        match key {
            AdminBy::Id(id) => Ok(keyed(ADMIN_BY_ID, id, Fetch::One)),
            AdminBy::Email(email) => Ok(keyed_text(ADMIN_BY_EMAIL, email, Fetch::One)),
        }
    }

    fn try_get(key: AdminBy) -> (r: Result<Statement, DatabaseError>) {
        match key {
            AdminBy::Id(id) => Ok(keyed(ADMIN_BY_ID, id, Fetch::Optional)),
            AdminBy::Email(email) => Ok(keyed_text(ADMIN_BY_EMAIL, email, Fetch::Optional)),
        }
    }

    fn get_all(key: AdminBy) -> (r: Result<Statement, DatabaseError>) {
        Err(DatabaseError::NotImplemented)
    }

    fn insert_with_id(input: NewAdminDAO, id: u128) -> (r: Result<Statement, DatabaseError>) {
        let ghost g = input;
        let mut params: Vec<SqlValue> = Vec::new();
        params.push(SqlValue::Uuid(id));
        params.push(SqlValue::Uuid(input.organization_id));
        params.push(SqlValue::Text(input.email));
        params.push(SqlValue::Text(input.password));
        params.push(SqlValue::Bool(input.is_default));
        proof {
            assert(params@ =~= seq![
                SqlValue::Uuid(id),
                SqlValue::Uuid(g.organization_id),
                SqlValue::Text(g.email),
                SqlValue::Text(g.password),
                SqlValue::Bool(g.is_default),
            ]);
        }
        Ok(Statement { sql: ADMIN_INSERT, params, fetch: Fetch::One })
    }

    fn update(key: AdminBy, input: UpdateAdminDAO) -> (r: Result<Statement, DatabaseError>) {
        match key {
            AdminBy::Id(id) => {
                let ghost g = input;
                let mut params: Vec<SqlValue> = Vec::new();
                params.push(SqlValue::Uuid(id));
                params.push(SqlValue::Text(input.password));
                params.push(SqlValue::Bool(input.is_default));
                proof {
                    assert(params@ =~= seq![SqlValue::Uuid(id), SqlValue::Text(g.password), SqlValue::Bool(g.is_default)]);
                }
                Ok(Statement { sql: ADMIN_UPDATE, params, fetch: Fetch::One })
            },
            AdminBy::Email(_) => Err(DatabaseError::NotImplemented),
        }
    }

    fn delete(key: AdminBy) -> (r: Result<Statement, DatabaseError>) {
        match key {
            AdminBy::Id(id) => Ok(keyed(ADMIN_DELETE, id, Fetch::One)),
            AdminBy::Email(_) => Err(DatabaseError::NotImplemented),
        }
    }
}

/// An administrator read back from the row that its insert stored equals
/// the payload, password as given, with the identifier the insert assigned.
pub proof fn lemma_admin_insert_read_back(input: NewAdminDAO, id: u128, s: Statement, row: AdminDAO)
    requires
        admin_insert(input, id, s),
        admin_row_inserted(s, row),
    ensures
        row.id == id,
        row.organization_id == input.organization_id,
        row.email == input.email,
        row.password == input.password,
        row.is_default == input.is_default,
{
}

/// An update changes exactly the fields of its payload: password and
/// default flag; identifier, organization and email stay.
pub proof fn lemma_admin_update_read_back(
    id: u128,
    input: UpdateAdminDAO,
    s: Statement,
    before: AdminDAO,
    after: AdminDAO,
)
    requires
        admin_update(id, input, s),
        admin_row_updated(before, s, after),
    ensures
        after.id == before.id,
        after.id == id,
        after.organization_id == before.organization_id,
        after.email == before.email,
        after.password == input.password,
        after.is_default == input.is_default,
{
}

} // verus!
