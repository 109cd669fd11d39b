//! Organizations: the root of tenancy, unique by name.
use vstd::prelude::*;
use crate::error::DatabaseError;
use crate::repository::EntityRepository;
use crate::statement::{Fetch, SqlValue, Statement, is_keyed, keyed};

verus! {

/// Selects one organization.
#[derive(Debug, Clone, PartialEq, Eq)]
pub enum OrganizationBy {
    Id(u128),
    /// Names are unique, so this selects at most one.
    Name(String),
}

/// Selects many organizations.
#[derive(Debug, Clone, PartialEq, Eq)]
pub enum OrganizationsWhere {
    /// Those whose `active` flag equals `active`, at most `limit` of them
    /// after skipping `offset`.
    Active { active: bool, limit: i32, offset: i32 },
}

/// A stored organization.
#[derive(Debug, Clone, PartialEq, Eq)]
pub struct OrganizationDAO {
    pub id: u128,
    pub name: String,
    pub active: bool,
}

/// What creating an organization takes; it starts active.
#[derive(Debug, Clone, PartialEq, Eq)]
pub struct NewOrganizationDAO {
    pub name: String,
}

/// The fields an update may change.
#[derive(Debug, Clone, PartialEq, Eq)]
pub struct UpdateOrganizationDAO {
    pub name: String,
    pub active: bool,
}

/// Statements over the `organizations` table.
#[derive(Debug)]
pub struct OrganizationRepository;

pub const ORGANIZATION_INSERT: &'static str =
    "INSERT INTO organizations (id, name) VALUES ($1, $2) RETURNING id, name, active";

pub const ORGANIZATION_BY_ID: &'static str =
    "SELECT id, name, active FROM organizations WHERE id = $1 LIMIT 1";

pub const ORGANIZATION_BY_NAME: &'static str =
    "SELECT id, name, active FROM organizations WHERE name = $1 LIMIT 1";

pub const ORGANIZATIONS_BY_ACTIVE: &'static str =
    "SELECT id, name, active FROM organizations WHERE active = $1 LIMIT $2 OFFSET $3";

pub const ORGANIZATION_UPDATE: &'static str =
    "UPDATE organizations SET name = $2, active = $3 WHERE id = $1 RETURNING id, name, active";

pub const ORGANIZATION_DELETE: &'static str =
    "DELETE FROM organizations WHERE id = $1 RETURNING id, name, active";

/// Why creating an organization did not happen.
#[derive(Debug, Clone, PartialEq, Eq)]
pub enum CreateOrganizationError {
    /// An organization of that name exists already.
    AlreadyExists,
    /// The storage failed otherwise.
    Database(DatabaseError),
}

/// The lookup statement for a selector, run for `fetch` rows.
pub open spec fn organization_lookup(key: OrganizationBy, fetch: Fetch, s: Statement) -> bool {
    &&& s.fetch == fetch
    &&& match key {
        OrganizationBy::Id(id) => s.sql == ORGANIZATION_BY_ID && s.params@ == seq![SqlValue::Uuid(id)],
        OrganizationBy::Name(n) => s.sql == ORGANIZATION_BY_NAME && s.params@ == seq![SqlValue::Text(n)],
    }
}

/// The insert statement that gives a new organization the identifier `id`.
pub open spec fn organization_insert(input: NewOrganizationDAO, id: u128, s: Statement) -> bool {
    &&& s.sql == ORGANIZATION_INSERT
    &&& s.params@ == seq![SqlValue::Uuid(id), SqlValue::Text(input.name)]
    &&& s.fetch == Fetch::One
}

/// The update statement for the organization with identifier `id`.
pub open spec fn organization_update(id: u128, input: UpdateOrganizationDAO, s: Statement) -> bool {
    &&& s.sql == ORGANIZATION_UPDATE
    &&& s.params@ == seq![SqlValue::Uuid(id), SqlValue::Text(input.name), SqlValue::Bool(input.active)]
    &&& s.fetch == Fetch::One
}

/// `row` holds the values that the insert statement `s` bound, and the
/// default `active` flag, true.
pub open spec fn organization_row_inserted(s: Statement, row: OrganizationDAO) -> bool {
    &&& s.params@[0] == SqlValue::Uuid(row.id)
    &&& s.params@[1] == SqlValue::Text(row.name)
    &&& row.active
}

/// `after` is `before` once the update statement `s` has run on it.
pub open spec fn organization_row_updated(before: OrganizationDAO, s: Statement, after: OrganizationDAO) -> bool {
    &&& s.params@[0] == SqlValue::Uuid(before.id)
    &&& after.id == before.id
    &&& s.params@[1] == SqlValue::Text(after.name)
    &&& s.params@[2] == SqlValue::Bool(after.active)
}

fn lookup(key: OrganizationBy, fetch: Fetch) -> (r: Statement)
    ensures
        organization_lookup(key, fetch, r),
{
    let mut params: Vec<SqlValue> = Vec::new();
    let sql = match key {
        OrganizationBy::Id(id) => {
            params.push(SqlValue::Uuid(id));
            ORGANIZATION_BY_ID
        },
        OrganizationBy::Name(n) => {
            params.push(SqlValue::Text(n));
            ORGANIZATION_BY_NAME
        },
    };
    proof {
        assert(params@ =~= match key {
            OrganizationBy::Id(id) => seq![SqlValue::Uuid(id)],
            OrganizationBy::Name(n) => seq![SqlValue::Text(n)],
        });
    }
    Statement { sql, params, fetch }
}

/// The first decision of creating an organization by name, taken once the
/// name has been probed (with `try_get` by name): what to insert, or why
/// nothing is.
pub fn creation_payload(name: String, probe: Result<Option<OrganizationDAO>, DatabaseError>) -> (r:
    Result<NewOrganizationDAO, CreateOrganizationError>)
    ensures
        match probe {
            Ok(None) => r == Ok::<NewOrganizationDAO, CreateOrganizationError>(NewOrganizationDAO { name }),
            Ok(Some(_)) => r == Err::<NewOrganizationDAO, CreateOrganizationError>(
                CreateOrganizationError::AlreadyExists,
            ),
            Err(e) => r == Err::<NewOrganizationDAO, CreateOrganizationError>(
                CreateOrganizationError::Database(e),
            ),
        },
{
    match probe {
        Ok(None) => Ok(NewOrganizationDAO { name }),
        Ok(Some(_)) => Err(CreateOrganizationError::AlreadyExists),
        Err(e) => Err(CreateOrganizationError::Database(e)),
    }
}

/// The last decision of creating an organization, taken on the insert's
/// result. The name is unique in storage, so a rejected insert
/// (`QueryFailed`) means that another caller took the name in between.
pub fn creation_outcome(inserted: Result<OrganizationDAO, DatabaseError>) -> (r: Result<
    OrganizationDAO,
    CreateOrganizationError,
>)
    ensures
        match inserted {
            Ok(o) => r == Ok::<OrganizationDAO, CreateOrganizationError>(o),
            Err(DatabaseError::QueryFailed(_)) => r == Err::<OrganizationDAO, CreateOrganizationError>(
                CreateOrganizationError::AlreadyExists,
            ),
            Err(e) => r == Err::<OrganizationDAO, CreateOrganizationError>(
                CreateOrganizationError::Database(e),
            ),
        },
{
    match inserted {
        Ok(o) => Ok(o),
        Err(DatabaseError::QueryFailed(_)) => Err(CreateOrganizationError::AlreadyExists),
        Err(e) => Err(CreateOrganizationError::Database(e)),
    }
}

impl EntityRepository<
    OrganizationDAO,
    NewOrganizationDAO,
    UpdateOrganizationDAO,
    OrganizationBy,
    OrganizationsWhere,
> for OrganizationRepository {
    open spec fn get_plan(key: OrganizationBy, r: Result<Statement, DatabaseError>) -> bool {
        r matches Ok(s) && organization_lookup(key, Fetch::One, s)
    }

    open spec fn try_get_plan(key: OrganizationBy, r: Result<Statement, DatabaseError>) -> bool {
        r matches Ok(s) && organization_lookup(key, Fetch::Optional, s)
    }

    open spec fn get_all_plan(key: OrganizationsWhere, r: Result<Statement, DatabaseError>) -> bool {
        r matches Ok(s) && match key {
            OrganizationsWhere::Active { active, limit, offset } => {
                &&& s.sql == ORGANIZATIONS_BY_ACTIVE
                &&& s.params@ == seq![SqlValue::Bool(active), SqlValue::Int(limit), SqlValue::Int(offset)]
                &&& s.fetch == Fetch::All
            },
        }
    }

    open spec fn insert_plan(input: NewOrganizationDAO, id: u128, r: Result<Statement, DatabaseError>) -> bool {
        r matches Ok(s) && organization_insert(input, id, s)
    }

    /// By identifier only: selecting by name is `NotImplemented`.
    open spec fn update_plan(
        key: OrganizationBy,
        input: UpdateOrganizationDAO,
        r: Result<Statement, DatabaseError>,
    ) -> bool {
        match key {
            OrganizationBy::Id(id) => r matches Ok(s) && organization_update(id, input, s),
            OrganizationBy::Name(_) => r == Err::<Statement, DatabaseError>(DatabaseError::NotImplemented),
        }
    }

    /// By identifier only: selecting by name is `NotImplemented`.
    open spec fn delete_plan(key: OrganizationBy, r: Result<Statement, DatabaseError>) -> bool {
        match key {
            OrganizationBy::Id(id) => r matches Ok(s) && is_keyed(s, ORGANIZATION_DELETE, id, Fetch::One),
            OrganizationBy::Name(_) => r == Err::<Statement, DatabaseError>(DatabaseError::NotImplemented),
        }
    }

    fn get(key: OrganizationBy) -> (r: Result<Statement, DatabaseError>) {
        Ok(lookup(key, Fetch::One))
    }

    fn try_get(key: OrganizationBy) -> (r: Result<Statement, DatabaseError>) {
        Ok(lookup(key, Fetch::Optional))
    }

    fn get_all(key: OrganizationsWhere) -> (r: Result<Statement, DatabaseError>) {
        match key {
            OrganizationsWhere::Active { active, limit, offset } => {
                let mut params: Vec<SqlValue> = Vec::new();
                params.push(SqlValue::Bool(active));
                params.push(SqlValue::Int(limit));
                params.push(SqlValue::Int(offset));
                proof {
                    assert(params@ =~= seq![SqlValue::Bool(active), SqlValue::Int(limit), SqlValue::Int(offset)]);
                }
                Ok(Statement { sql: ORGANIZATIONS_BY_ACTIVE, params, fetch: Fetch::All })
            },
        }
    }

    fn insert_with_id(input: NewOrganizationDAO, id: u128) -> (r: Result<Statement, DatabaseError>) {
        let mut params: Vec<SqlValue> = Vec::new();
        params.push(SqlValue::Uuid(id));
        params.push(SqlValue::Text(input.name));
        proof {
            assert(params@ =~= seq![SqlValue::Uuid(id), SqlValue::Text(input.name)]);
        }
        Ok(Statement { sql: ORGANIZATION_INSERT, params, fetch: Fetch::One })
    }

    fn update(key: OrganizationBy, input: UpdateOrganizationDAO) -> (r: Result<Statement, DatabaseError>) {
        match key {
            OrganizationBy::Id(id) => {
                let mut params: Vec<SqlValue> = Vec::new();
                params.push(SqlValue::Uuid(id));
                params.push(SqlValue::Text(input.name));
                params.push(SqlValue::Bool(input.active));
                proof {
                    assert(params@ =~= seq![SqlValue::Uuid(id), SqlValue::Text(input.name), SqlValue::Bool(input.active)]);
                }
                Ok(Statement { sql: ORGANIZATION_UPDATE, params, fetch: Fetch::One })
            },
            OrganizationBy::Name(_) => Err(DatabaseError::NotImplemented),
        }
    }

    fn delete(key: OrganizationBy) -> (r: Result<Statement, DatabaseError>) {
        match key {
            OrganizationBy::Id(id) => Ok(keyed(ORGANIZATION_DELETE, id, Fetch::One)),
            OrganizationBy::Name(_) => Err(DatabaseError::NotImplemented),
        }
    }
}

/// An organization read back from the row that its insert stored has the
/// inserted name, the identifier the insert assigned, and is active.
pub proof fn lemma_organization_insert_read_back(
    input: NewOrganizationDAO,
    id: u128,
    s: Statement,
    row: OrganizationDAO,
)
    requires
        organization_insert(input, id, s),
        organization_row_inserted(s, row),
    ensures
        row.id == id,
        row.name == input.name,
        row.active,
{
}

/// An update changes exactly the fields of its payload: the updated
/// organization has the payload's name and flag, and its identifier.
pub proof fn lemma_organization_update_read_back(
    id: u128,
    input: UpdateOrganizationDAO,
    s: Statement,
    before: OrganizationDAO,
    after: OrganizationDAO,
)
    requires
        organization_update(id, input, s),
        organization_row_updated(before, s, after),
    ensures
        after.id == before.id,
        after.id == id,
        after.name == input.name,
        after.active == input.active,
{
}

} // verus!
