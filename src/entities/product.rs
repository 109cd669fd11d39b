//! Products of an organization, with a unit count and a price of any size.
use vstd::prelude::*;
use crate::codec::{
    Money, amount_column, amount_of_column, decode_amount, decode_money, encode_amount, encode_money,
    le_bytes, le_value, lemma_amount_round_trip, lemma_money_round_trip,
};
use crate::error::DatabaseError;
use crate::repository::EntityRepository;
use crate::statement::{Fetch, SqlValue, Statement, is_blob, is_keyed, keyed};

verus! {

/// Selects one product.
#[derive(Debug, Clone, PartialEq, Eq)]
pub enum ProductBy {
    Id(u128),
}

/// A stored product. The timestamps are set by storage, in seconds since
/// the Unix epoch; `updated_at` moves forward on every update.
#[derive(Debug, Clone, PartialEq, Eq)]
pub struct ProductDAO {
    pub id: u128,
    pub organization_id: u128,
    pub name: String,
    pub description: String,
    pub amount: u32,
    pub price: Money,
    pub created_at: i64,
    pub updated_at: i64,
}

/// What creating a product takes.
#[derive(Debug, Clone, PartialEq, Eq)]
pub struct NewProductDAO {
    pub organization_id: u128,
    pub name: String,
    pub description: String,
    pub amount: u32,
    pub price: Money,
}

/// The fields an update may change.
#[derive(Debug, Clone, PartialEq, Eq)]
pub struct UpdateProductDAO {
    pub name: String,
    pub description: String,
    pub amount: u32,
    pub price: Money,
}

/// A product as its row stores it: the amount in a signed 32-bit column, the
/// price as its minimal little-endian bytes.
#[derive(Debug, Clone, PartialEq, Eq)]
pub struct SqliteProductDAO {
    pub id: u128,
    pub organization_id: u128,
    pub name: String,
    pub description: String,
    pub amount: i32,
    pub price: Vec<u8>,
    pub created_at: i64,
    pub updated_at: i64,
}

/// `d` is the product that `row` stores.
pub open spec fn product_of_row(row: SqliteProductDAO, d: ProductDAO) -> bool {
    &&& d.id == row.id
    &&& d.organization_id == row.organization_id
    &&& d.name == row.name
    &&& d.description == row.description
    &&& d.amount == amount_of_column(row.amount)
    &&& d.price@ == le_value(row.price@)
    &&& d.created_at == row.created_at
    &&& d.updated_at == row.updated_at
}

/// `row` is how `d` is stored.
pub open spec fn row_of_product(d: ProductDAO, row: SqliteProductDAO) -> bool {
    &&& row.id == d.id
    &&& row.organization_id == d.organization_id
    &&& row.name == d.name
    &&& row.description == d.description
    &&& row.amount == amount_column(d.amount)
    &&& row.price@ == le_bytes(d.price@)
    &&& row.created_at == d.created_at
    &&& row.updated_at == d.updated_at
}

impl SqliteProductDAO {
    /// The row that stores a product.
    pub fn from_product(value: ProductDAO) -> (r: SqliteProductDAO)
        ensures
            row_of_product(value, r),
    {
        let price = encode_money(&value.price);
        SqliteProductDAO {
            id: value.id,
            organization_id: value.organization_id,
            name: value.name,
            description: value.description,
            amount: encode_amount(value.amount),
            price,
            created_at: value.created_at,
            updated_at: value.updated_at,
        }
    }
}

impl ProductDAO {
    /// Reads a product from its row.
    pub fn from_row(row: SqliteProductDAO) -> (r: ProductDAO)
        ensures
            product_of_row(row, r),
    {
        let price = decode_money(row.price.as_slice());
        ProductDAO {
            id: row.id,
            organization_id: row.organization_id,
            name: row.name,
            description: row.description,
            amount: decode_amount(row.amount),
            price,
            created_at: row.created_at,
            updated_at: row.updated_at,
        }
    }
}

/// Statements over the `products` table.
#[derive(Debug)]
pub struct ProductRepository;

pub const PRODUCT_INSERT: &'static str =
    "INSERT INTO products (id, organization_id, name, description, amount, price) VALUES ($1, $2, $3, $4, $5, $6) RETURNING id, organization_id, name, description, amount, price, created_at, updated_at";

pub const PRODUCT_BY_ID: &'static str =
    "SELECT id, organization_id, name, description, amount, price, created_at, updated_at FROM products WHERE id = $1 LIMIT 1";

pub const PRODUCT_UPDATE: &'static str =
    "UPDATE products SET name = $2, description = $3, amount = $4, price = $5, updated_at = MAX(unixepoch('now'), updated_at + 1) WHERE id = $1 RETURNING id, organization_id, name, description, amount, price, created_at, updated_at";

pub const PRODUCT_DELETE: &'static str =
    "DELETE FROM products WHERE id = $1 RETURNING id, organization_id, name, description, amount, price, created_at, updated_at";

/// The insert statement that gives a new product the identifier `id`.
pub open spec fn product_insert(input: NewProductDAO, id: u128, s: Statement) -> bool {
    &&& s.sql == PRODUCT_INSERT
    &&& s.params@.len() == 6
    &&& s.params@[0] == SqlValue::Uuid(id)
    &&& s.params@[1] == SqlValue::Uuid(input.organization_id)
    &&& s.params@[2] == SqlValue::Text(input.name)
    &&& s.params@[3] == SqlValue::Text(input.description)
    &&& s.params@[4] == SqlValue::Int(amount_column(input.amount))
    &&& is_blob(s.params@[5], le_bytes(input.price@))
    &&& s.fetch == Fetch::One
}

/// The update statement for the product with identifier `id`.
pub open spec fn product_update(id: u128, input: UpdateProductDAO, s: Statement) -> bool {
    &&& s.sql == PRODUCT_UPDATE
    &&& s.params@.len() == 5
    &&& s.params@[0] == SqlValue::Uuid(id)
    &&& s.params@[1] == SqlValue::Text(input.name)
    &&& s.params@[2] == SqlValue::Text(input.description)
    &&& s.params@[3] == SqlValue::Int(amount_column(input.amount))
    &&& is_blob(s.params@[4], le_bytes(input.price@))
    &&& s.fetch == Fetch::One
}

/// `row` holds, column by column, the values that the insert statement `s`
/// bound; the timestamps are the engine's.
pub open spec fn product_row_inserted(s: Statement, row: SqliteProductDAO) -> bool {
    &&& s.params@[0] == SqlValue::Uuid(row.id)
    &&& s.params@[1] == SqlValue::Uuid(row.organization_id)
    &&& s.params@[2] == SqlValue::Text(row.name)
    &&& s.params@[3] == SqlValue::Text(row.description)
    &&& s.params@[4] == SqlValue::Int(row.amount)
    &&& is_blob(s.params@[5], row.price@)
}

/// `after` is `before` once the update statement `s` has run on it: the
/// bound columns replaced, `updated_at` moved forward, the rest kept.
pub open spec fn product_row_updated(before: SqliteProductDAO, s: Statement, after: SqliteProductDAO) -> bool {
    &&& s.params@[0] == SqlValue::Uuid(before.id)
    &&& after.id == before.id
    &&& after.organization_id == before.organization_id
    &&& s.params@[1] == SqlValue::Text(after.name)
    &&& s.params@[2] == SqlValue::Text(after.description)
    &&& s.params@[3] == SqlValue::Int(after.amount)
    &&& is_blob(s.params@[4], after.price@)
    &&& after.created_at == before.created_at
    &&& after.updated_at > before.updated_at
}

impl EntityRepository<ProductDAO, NewProductDAO, UpdateProductDAO, ProductBy, ProductBy> for ProductRepository {
    open spec fn get_plan(key: ProductBy, r: Result<Statement, DatabaseError>) -> bool {
        match key {
            ProductBy::Id(id) => r matches Ok(s) && is_keyed(s, PRODUCT_BY_ID, id, Fetch::One),
        }
    }

    open spec fn try_get_plan(key: ProductBy, r: Result<Statement, DatabaseError>) -> bool {
        match key {
            ProductBy::Id(id) => r matches Ok(s) && is_keyed(s, PRODUCT_BY_ID, id, Fetch::Optional),
        }
    }

    /// Listing is not offered.
    open spec fn get_all_plan(key: ProductBy, r: Result<Statement, DatabaseError>) -> bool {
        r == Err::<Statement, DatabaseError>(DatabaseError::NotImplemented)
    }

    open spec fn insert_plan(input: NewProductDAO, id: u128, r: Result<Statement, DatabaseError>) -> bool {
        r matches Ok(s) && product_insert(input, id, s)
    }

    open spec fn update_plan(key: ProductBy, input: UpdateProductDAO, r: Result<Statement, DatabaseError>) -> bool {
        match key {
            ProductBy::Id(id) => r matches Ok(s) && product_update(id, input, s),
        }
    }

    open spec fn delete_plan(key: ProductBy, r: Result<Statement, DatabaseError>) -> bool {
        match key {
            ProductBy::Id(id) => r matches Ok(s) && is_keyed(s, PRODUCT_DELETE, id, Fetch::One),
        }
    }

    fn get(key: ProductBy) -> (r: Result<Statement, DatabaseError>) {
        match key {
            ProductBy::Id(id) => Ok(keyed(PRODUCT_BY_ID, id, Fetch::One)),
        }
    }

    fn try_get(key: ProductBy) -> (r: Result<Statement, DatabaseError>) {
        match key {
            ProductBy::Id(id) => Ok(keyed(PRODUCT_BY_ID, id, Fetch::Optional)),
        }
    }

    fn get_all(key: ProductBy) -> (r: Result<Statement, DatabaseError>) {
        Err(DatabaseError::NotImplemented)
    }

    fn insert_with_id(input: NewProductDAO, id: u128) -> (r: Result<Statement, DatabaseError>) {
        let price = encode_money(&input.price);
        let mut params: Vec<SqlValue> = Vec::new();
        params.push(SqlValue::Uuid(id));
        params.push(SqlValue::Uuid(input.organization_id));
        params.push(SqlValue::Text(input.name));
        params.push(SqlValue::Text(input.description));
        params.push(SqlValue::Int(encode_amount(input.amount)));
        params.push(SqlValue::Blob(price));
        Ok(Statement { sql: PRODUCT_INSERT, params, fetch: Fetch::One })
    }

    fn update(key: ProductBy, input: UpdateProductDAO) -> (r: Result<Statement, DatabaseError>) {
        match key {
            ProductBy::Id(id) => {
                let price = encode_money(&input.price);
                let mut params: Vec<SqlValue> = Vec::new();
                params.push(SqlValue::Uuid(id));
                params.push(SqlValue::Text(input.name));
                params.push(SqlValue::Text(input.description));
                params.push(SqlValue::Int(encode_amount(input.amount)));
                params.push(SqlValue::Blob(price));
                Ok(Statement { sql: PRODUCT_UPDATE, params, fetch: Fetch::One })
            },
        }
    }

    fn delete(key: ProductBy) -> (r: Result<Statement, DatabaseError>) {
        match key {
            ProductBy::Id(id) => Ok(keyed(PRODUCT_DELETE, id, Fetch::One)),
        }
    }
}

/// A product read back from its stored row keeps every field, its price
/// whatever its size; only an amount above `i32::MAX` comes back as 0.
pub proof fn lemma_product_row_round_trip(p: ProductDAO, row: SqliteProductDAO, d: ProductDAO)
    requires
        row_of_product(p, row),
        product_of_row(row, d),
    ensures
        d.id == p.id,
        d.organization_id == p.organization_id,
        d.name == p.name,
        d.description == p.description,
        d.price@ == p.price@,
        d.created_at == p.created_at,
        d.updated_at == p.updated_at,
        p.amount <= i32::MAX ==> d.amount == p.amount,
        p.amount > i32::MAX ==> d.amount == 0,
{
    lemma_money_round_trip(p.price@);
    if p.amount <= i32::MAX {
        lemma_amount_round_trip(p.amount);
    }
}

/// A product read back from the row that its insert stored equals the
/// inserted payload, with the identifier the insert assigned and the
/// timestamps that storage set, wherever the amount fits its column.
pub proof fn lemma_product_insert_read_back(
    input: NewProductDAO,
    id: u128,
    s: Statement,
    row: SqliteProductDAO,
    d: ProductDAO,
)
    requires
        input.amount <= i32::MAX,
        product_insert(input, id, s),
        product_row_inserted(s, row),
        product_of_row(row, d),
    ensures
        d.id == id,
        d.organization_id == input.organization_id,
        d.name == input.name,
        d.description == input.description,
        d.amount == input.amount,
        d.price@ == input.price@,
        d.created_at == row.created_at,
        d.updated_at == row.updated_at,
{
    lemma_amount_round_trip(input.amount);
    lemma_money_round_trip(input.price@);
}

/// An update changes exactly the fields of its payload: read back, the
/// updated product has the payload's name, description, amount and price,
/// the identifier, organization and creation time it had, and a later
/// `updated_at`; this wherever the amount fits its column.
pub proof fn lemma_product_update_read_back(
    id: u128,
    input: UpdateProductDAO,
    s: Statement,
    before: SqliteProductDAO,
    after: SqliteProductDAO,
    old_product: ProductDAO,
    new_product: ProductDAO,
)
    requires
        input.amount <= i32::MAX,
        product_update(id, input, s),
        product_row_updated(before, s, after),
        product_of_row(before, old_product),
        product_of_row(after, new_product),
    ensures
        new_product.id == old_product.id,
        new_product.id == id,
        new_product.organization_id == old_product.organization_id,
        new_product.created_at == old_product.created_at,
        new_product.updated_at > old_product.updated_at,
        new_product.name == input.name,
        new_product.description == input.description,
        new_product.amount == input.amount,
        new_product.price@ == input.price@,
{
    lemma_amount_round_trip(input.amount);
    lemma_money_round_trip(input.price@);
}

} // verus!
