//! Sales: a number of units of one product sold by one seller, at a total
//! price of any size.
use vstd::prelude::*;
use crate::codec::{
    Money, amount_column, amount_of_column, decode_amount, decode_money, encode_amount, encode_money,
    le_bytes, le_value, lemma_amount_round_trip, lemma_money_round_trip,
};
use crate::error::DatabaseError;
use crate::repository::EntityRepository;
use crate::statement::{Fetch, SqlValue, Statement, is_blob, is_keyed, keyed};

verus! {

/// Selects one sale.
#[derive(Debug, Clone, PartialEq, Eq)]
pub enum SalesBy {
    Id(u128),
}

/// A stored sale. The timestamps are set by storage, in seconds since the
/// Unix epoch; `updated_at` moves forward on every update.
#[derive(Debug, Clone, PartialEq, Eq)]
pub struct SalesDAO {
    pub id: u128,
    pub product_id: u128,
    pub seller_id: u128,
    pub amount: u32,
    pub total_price: Money,
    pub created_at: i64,
    pub updated_at: i64,
}

/// What recording a sale takes.
#[derive(Debug, Clone, PartialEq, Eq)]
pub struct NewSalesDAO {
    pub product_id: u128,
    pub seller_id: u128,
    pub amount: u32,
    pub total_price: Money,
}

/// The fields an update may change.
#[derive(Debug, Clone, PartialEq, Eq)]
pub struct UpdateSalesDAO {
    pub amount: u32,
    pub total_price: Money,
}

/// A sale as its row stores it: the amount in a signed 32-bit column, the
/// total price as its minimal little-endian bytes.
#[derive(Debug, Clone, PartialEq, Eq)]
pub struct SqliteSalesDAO {
    pub id: u128,
    pub product_id: u128,
    pub seller_id: u128,
    pub amount: i32,
    pub total_price: Vec<u8>,
    pub created_at: i64,
    pub updated_at: i64,
}

/// `d` is the sale that `row` stores.
pub open spec fn sale_of_row(row: SqliteSalesDAO, d: SalesDAO) -> bool {
    &&& d.id == row.id
    &&& d.product_id == row.product_id
    &&& d.seller_id == row.seller_id
    &&& d.amount == amount_of_column(row.amount)
    &&& d.total_price@ == le_value(row.total_price@)
    &&& d.created_at == row.created_at
    &&& d.updated_at == row.updated_at
}

/// `row` is how `d` is stored.
pub open spec fn row_of_sale(d: SalesDAO, row: SqliteSalesDAO) -> bool {
    &&& row.id == d.id
    &&& row.product_id == d.product_id
    &&& row.seller_id == d.seller_id
    &&& row.amount == amount_column(d.amount)
    &&& row.total_price@ == le_bytes(d.total_price@)
    &&& row.created_at == d.created_at
    &&& row.updated_at == d.updated_at
}

impl SqliteSalesDAO {
    /// The row that stores a sale.
    pub fn from_sale(value: SalesDAO) -> (r: SqliteSalesDAO)
        ensures
            row_of_sale(value, r),
    {
        let total_price = encode_money(&value.total_price);
        SqliteSalesDAO {
            id: value.id,
            product_id: value.product_id,
            seller_id: value.seller_id,
            amount: encode_amount(value.amount),
            total_price,
            created_at: value.created_at,
            updated_at: value.updated_at,
        }
    }
}

impl SalesDAO {
    /// Reads a sale from its row.
    pub fn from_row(row: SqliteSalesDAO) -> (r: SalesDAO)
        ensures
            sale_of_row(row, r),
    {
        let total_price = decode_money(row.total_price.as_slice());
        SalesDAO {
            id: row.id,
            product_id: row.product_id,
            seller_id: row.seller_id,
            amount: decode_amount(row.amount),
            total_price,
            created_at: row.created_at,
            updated_at: row.updated_at,
        }
    }
}

/// Statements over the `sales` table.
#[derive(Debug)]
pub struct SalesRepository;

pub const SALES_INSERT: &'static str =
    "INSERT INTO sales (id, product_id, seller_id, amount, total_price) VALUES ($1, $2, $3, $4, $5) RETURNING id, product_id, seller_id, amount, total_price, created_at, updated_at";

pub const SALES_BY_ID: &'static str =
    "SELECT id, product_id, seller_id, amount, total_price, created_at, updated_at FROM sales WHERE id = $1 LIMIT 1";

pub const SALES_UPDATE: &'static str =
    "UPDATE sales SET amount = $2, total_price = $3, updated_at = MAX(unixepoch('now'), updated_at + 1) WHERE id = $1 RETURNING id, product_id, seller_id, amount, total_price, created_at, updated_at";

pub const SALES_DELETE: &'static str =
    "DELETE FROM sales WHERE id = $1 RETURNING id, product_id, seller_id, amount, total_price, created_at, updated_at";

/// The insert statement that gives a new sale the identifier `id`.
pub open spec fn sale_insert(input: NewSalesDAO, id: u128, s: Statement) -> bool {
    &&& s.sql == SALES_INSERT
    &&& s.params@.len() == 5
    &&& s.params@[0] == SqlValue::Uuid(id)
    &&& s.params@[1] == SqlValue::Uuid(input.product_id)
    &&& s.params@[2] == SqlValue::Uuid(input.seller_id)
    &&& s.params@[3] == SqlValue::Int(amount_column(input.amount))
    &&& is_blob(s.params@[4], le_bytes(input.total_price@))
    &&& s.fetch == Fetch::One
}

/// The update statement for the sale with identifier `id`.
pub open spec fn sale_update(id: u128, input: UpdateSalesDAO, s: Statement) -> bool {
    &&& s.sql == SALES_UPDATE
    &&& s.params@.len() == 3
    &&& s.params@[0] == SqlValue::Uuid(id)
    &&& s.params@[1] == SqlValue::Int(amount_column(input.amount))
    &&& is_blob(s.params@[2], le_bytes(input.total_price@))
    &&& s.fetch == Fetch::One
}

/// `row` holds, column by column, the values that the insert statement `s`
/// bound; the timestamps are the engine's.
pub open spec fn sale_row_inserted(s: Statement, row: SqliteSalesDAO) -> bool {
    &&& s.params@[0] == SqlValue::Uuid(row.id)
    &&& s.params@[1] == SqlValue::Uuid(row.product_id)
    &&& s.params@[2] == SqlValue::Uuid(row.seller_id)
    &&& s.params@[3] == SqlValue::Int(row.amount)
    &&& is_blob(s.params@[4], row.total_price@)
}

/// `after` is `before` once the update statement `s` has run on it: the
/// bound columns replaced, `updated_at` moved forward, the rest kept.
pub open spec fn sale_row_updated(before: SqliteSalesDAO, s: Statement, after: SqliteSalesDAO) -> bool {
    &&& s.params@[0] == SqlValue::Uuid(before.id)
    &&& after.id == before.id
    &&& after.product_id == before.product_id
    &&& after.seller_id == before.seller_id
    &&& s.params@[1] == SqlValue::Int(after.amount)
    &&& is_blob(s.params@[2], after.total_price@)
    &&& after.created_at == before.created_at
    &&& after.updated_at > before.updated_at
}

impl EntityRepository<SalesDAO, NewSalesDAO, UpdateSalesDAO, SalesBy, SalesBy> for SalesRepository {
    open spec fn get_plan(key: SalesBy, r: Result<Statement, DatabaseError>) -> bool {
        match key {
            SalesBy::Id(id) => r matches Ok(s) && is_keyed(s, SALES_BY_ID, id, Fetch::One),
        }
    }

    open spec fn try_get_plan(key: SalesBy, r: Result<Statement, DatabaseError>) -> bool {
        match key {
            SalesBy::Id(id) => r matches Ok(s) && is_keyed(s, SALES_BY_ID, id, Fetch::Optional),
        }
    }

    /// Listing is not offered.
    open spec fn get_all_plan(key: SalesBy, r: Result<Statement, DatabaseError>) -> bool {
        r == Err::<Statement, DatabaseError>(DatabaseError::NotImplemented)
    }

    open spec fn insert_plan(input: NewSalesDAO, id: u128, r: Result<Statement, DatabaseError>) -> bool {
        r matches Ok(s) && sale_insert(input, id, s)
    }

    open spec fn update_plan(key: SalesBy, input: UpdateSalesDAO, r: Result<Statement, DatabaseError>) -> bool {
        match key {
            SalesBy::Id(id) => r matches Ok(s) && sale_update(id, input, s),
        }
    }

    open spec fn delete_plan(key: SalesBy, r: Result<Statement, DatabaseError>) -> bool {
        match key {
            SalesBy::Id(id) => r matches Ok(s) && is_keyed(s, SALES_DELETE, id, Fetch::One),
        }
    }

    fn get(key: SalesBy) -> (r: Result<Statement, DatabaseError>) {
        match key {
            SalesBy::Id(id) => Ok(keyed(SALES_BY_ID, id, Fetch::One)),
        }
    }

    fn try_get(key: SalesBy) -> (r: Result<Statement, DatabaseError>) {
        match key {
            SalesBy::Id(id) => Ok(keyed(SALES_BY_ID, id, Fetch::Optional)),
        }
    }

    fn get_all(key: SalesBy) -> (r: Result<Statement, DatabaseError>) {
        Err(DatabaseError::NotImplemented)
    }

    fn insert_with_id(input: NewSalesDAO, id: u128) -> (r: Result<Statement, DatabaseError>) {
        let total_price = encode_money(&input.total_price);
        let mut params: Vec<SqlValue> = Vec::new();
        params.push(SqlValue::Uuid(id));
        params.push(SqlValue::Uuid(input.product_id));
        params.push(SqlValue::Uuid(input.seller_id));
        params.push(SqlValue::Int(encode_amount(input.amount)));
        params.push(SqlValue::Blob(total_price));
        Ok(Statement { sql: SALES_INSERT, params, fetch: Fetch::One })
    }

    fn update(key: SalesBy, input: UpdateSalesDAO) -> (r: Result<Statement, DatabaseError>) {
        match key {
            SalesBy::Id(id) => {
                let total_price = encode_money(&input.total_price);
                let mut params: Vec<SqlValue> = Vec::new();
                params.push(SqlValue::Uuid(id));
                params.push(SqlValue::Int(encode_amount(input.amount)));
                params.push(SqlValue::Blob(total_price));
                Ok(Statement { sql: SALES_UPDATE, params, fetch: Fetch::One })
            },
        }
    }

    fn delete(key: SalesBy) -> (r: Result<Statement, DatabaseError>) {
        match key {
            SalesBy::Id(id) => Ok(keyed(SALES_DELETE, id, Fetch::One)),
        }
    }
}

/// A sale read back from its stored row keeps every field, its total price
/// whatever its size; only an amount above `i32::MAX` comes back as 0.
pub proof fn lemma_sale_row_round_trip(d: SalesDAO, row: SqliteSalesDAO, back: SalesDAO)
    requires
        row_of_sale(d, row),
        sale_of_row(row, back),
    ensures
        back.id == d.id,
        back.product_id == d.product_id,
        back.seller_id == d.seller_id,
        back.total_price@ == d.total_price@,
        back.created_at == d.created_at,
        back.updated_at == d.updated_at,
        d.amount <= i32::MAX ==> back.amount == d.amount,
        d.amount > i32::MAX ==> back.amount == 0,
{
    lemma_money_round_trip(d.total_price@);
    if d.amount <= i32::MAX {
        lemma_amount_round_trip(d.amount);
    }
}

/// A sale read back from the row that its insert stored equals the recorded
/// payload, with the identifier the insert assigned and the timestamps that
/// storage set, wherever the amount fits its column.
pub proof fn lemma_sale_insert_read_back(
    input: NewSalesDAO,
    id: u128,
    s: Statement,
    row: SqliteSalesDAO,
    d: SalesDAO,
)
    requires
        input.amount <= i32::MAX,
        sale_insert(input, id, s),
        sale_row_inserted(s, row),
        sale_of_row(row, d),
    ensures
        d.id == id,
        d.product_id == input.product_id,
        d.seller_id == input.seller_id,
        d.amount == input.amount,
        d.total_price@ == input.total_price@,
        d.created_at == row.created_at,
        d.updated_at == row.updated_at,
{
    lemma_amount_round_trip(input.amount);
    lemma_money_round_trip(input.total_price@);
}

/// An update changes exactly the fields of its payload: read back, the
/// updated sale has the payload's amount and total price, the identifier,
/// product, seller and creation time it had, and a later `updated_at`; this
/// wherever the amount fits its column.
pub proof fn lemma_sale_update_read_back(
    id: u128,
    input: UpdateSalesDAO,
    s: Statement,
    before: SqliteSalesDAO,
    after: SqliteSalesDAO,
    old_sale: SalesDAO,
    new_sale: SalesDAO,
)
    requires
        input.amount <= i32::MAX,
        sale_update(id, input, s),
        sale_row_updated(before, s, after),
        sale_of_row(before, old_sale),
        sale_of_row(after, new_sale),
    ensures
        new_sale.id == old_sale.id,
        new_sale.id == id,
        new_sale.product_id == old_sale.product_id,
        new_sale.seller_id == old_sale.seller_id,
        new_sale.created_at == old_sale.created_at,
        new_sale.updated_at > old_sale.updated_at,
        new_sale.amount == input.amount,
        new_sale.total_price@ == input.total_price@,
{
    lemma_amount_round_trip(input.amount);
    lemma_money_round_trip(input.total_price@);
}

} // verus!
