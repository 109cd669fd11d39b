//! Schema bootstrap: the ordered steps that create the five tables, and the
//! choice of the steps that an instance still needs.
use vstd::prelude::*;

verus! {

/// Which way a step goes. Steps that undo are never applied automatically.
#[derive(Debug, Clone, Copy, PartialEq, Eq, Structural)]
pub enum MigrationKind {
    Up,
    Down,
}

/// One schema step, identified by its version.
#[derive(Debug, Clone, Copy, PartialEq, Eq)]
pub struct Migration {
    pub version: i64,
    pub description: &'static str,
    pub sql: &'static str,
    pub kind: MigrationKind,
}

pub const CREATE_ORGANIZATIONS: &'static str =
    "CREATE TABLE IF NOT EXISTS organizations (id BLOB PRIMARY KEY NOT NULL, name TEXT NOT NULL UNIQUE CHECK (length(name) > 0), active BOOLEAN NOT NULL DEFAULT TRUE)";

pub const CREATE_ADMINS: &'static str =
    "CREATE TABLE IF NOT EXISTS admins (id BLOB PRIMARY KEY NOT NULL, organization_id BLOB NOT NULL REFERENCES organizations (id), email TEXT NOT NULL UNIQUE, password TEXT NOT NULL, is_default BOOLEAN NOT NULL DEFAULT FALSE)";

pub const CREATE_SELLERS: &'static str =
    "CREATE TABLE IF NOT EXISTS sellers (id BLOB PRIMARY KEY NOT NULL, organization_id BLOB NOT NULL REFERENCES organizations (id), email TEXT NOT NULL UNIQUE, password TEXT NOT NULL, active BOOLEAN NOT NULL DEFAULT TRUE, created_at INTEGER NOT NULL DEFAULT (unixepoch('now')))";

pub const CREATE_PRODUCTS: &'static str =
    "CREATE TABLE IF NOT EXISTS products (id BLOB PRIMARY KEY NOT NULL, organization_id BLOB NOT NULL REFERENCES organizations (id), name TEXT NOT NULL, description TEXT NOT NULL, amount INTEGER NOT NULL, price BLOB NOT NULL, created_at INTEGER NOT NULL DEFAULT (unixepoch('now')), updated_at INTEGER NOT NULL DEFAULT (unixepoch('now')))";

pub const CREATE_SALES: &'static str =
    "CREATE TABLE IF NOT EXISTS sales (id BLOB PRIMARY KEY NOT NULL, product_id BLOB NOT NULL REFERENCES products (id), seller_id BLOB NOT NULL REFERENCES sellers (id), amount INTEGER NOT NULL, total_price BLOB NOT NULL, created_at INTEGER NOT NULL DEFAULT (unixepoch('now')), updated_at INTEGER NOT NULL DEFAULT (unixepoch('now')))";

/// The schema's steps, in the order they apply: each table after the tables
/// it refers to.
pub fn migrations() -> (r: Vec<Migration>)
    ensures
        r@.len() == 5,
        forall|i: int| 0 <= i < 5 ==> r@[i].version == i + 1 && r@[i].kind == MigrationKind::Up,
        r@[0].sql == CREATE_ORGANIZATIONS,
        r@[1].sql == CREATE_ADMINS,
        r@[2].sql == CREATE_SELLERS,
        r@[3].sql == CREATE_PRODUCTS,
        r@[4].sql == CREATE_SALES,
{
    let mut r: Vec<Migration> = Vec::new();
    r.push(Migration { version: 1, description: "organizations", sql: CREATE_ORGANIZATIONS, kind: MigrationKind::Up });
    r.push(Migration { version: 2, description: "admins", sql: CREATE_ADMINS, kind: MigrationKind::Up });
    r.push(Migration { version: 3, description: "sellers", sql: CREATE_SELLERS, kind: MigrationKind::Up });
    r.push(Migration { version: 4, description: "products", sql: CREATE_PRODUCTS, kind: MigrationKind::Up });
    r.push(Migration { version: 5, description: "sales", sql: CREATE_SALES, kind: MigrationKind::Up });
    r
}

/// Whether step `m` still has to run on an instance that has applied the
/// versions `applied`.
pub open spec fn needs_step(m: Migration, applied: Seq<i64>) -> bool {
    m.kind == MigrationKind::Up && !applied.contains(m.version)
}

/// The positions, in order, of the steps among the first `n` that still
/// have to run.
pub open spec fn pending_upto(steps: Seq<Migration>, applied: Seq<i64>, n: int) -> Seq<usize>
    decreases n,
{
    if n <= 0 {
        Seq::empty()
    } else if needs_step(steps[n - 1], applied) {
        pending_upto(steps, applied, n - 1).push((n - 1) as usize)
    } else {
        pending_upto(steps, applied, n - 1)
    }
}

fn contains_version(applied: &Vec<i64>, v: i64) -> (r: bool)
    ensures
        r == applied@.contains(v),
{
    let mut i: usize = 0;
    while i < applied.len()
        invariant
            i <= applied@.len(),
            forall|j: int| 0 <= j < i ==> applied@[j] != v,
        decreases applied@.len() - i,
    {
        if applied[i] == v {
            return true;
        }
        i = i + 1;
    }
    false
}

/// The positions, in order, of the steps that still have to run on an
/// instance that has applied the versions `applied`: steps that undo and
/// steps already applied are skipped, so running the plan again on a
/// migrated instance does nothing.
pub fn pending_migrations(steps: &Vec<Migration>, applied: &Vec<i64>) -> (r: Vec<usize>)
    ensures
        r@ == pending_upto(steps@, applied@, steps@.len() as int),
{
    let mut r: Vec<usize> = Vec::new();
    let mut i: usize = 0;
    while i < steps.len()
        invariant
            i <= steps@.len(),
            r@ == pending_upto(steps@, applied@, i as int),
        decreases steps@.len() - i,
    {
        let m = steps[i];
        if m.kind == MigrationKind::Up && !contains_version(applied, m.version) {
            r.push(i);
        }
        i = i + 1;
    }
    r
}

/// Once every step of a plan has been recorded as applied, the plan for
/// the same steps is empty: bootstrap can be run again safely.
pub proof fn lemma_rerun_plans_nothing(steps: Seq<Migration>, applied: Seq<i64>)
    requires
        forall|i: int| 0 <= i < steps.len() && steps[i].kind == MigrationKind::Up
            ==> applied.contains(#[trigger] steps[i].version),
    ensures
        pending_upto(steps, applied, steps.len() as int) == Seq::<usize>::empty(),
{
    lemma_rerun_prefix(steps, applied, steps.len() as int);
}

proof fn lemma_rerun_prefix(steps: Seq<Migration>, applied: Seq<i64>, n: int)
    requires
        n <= steps.len(),
        forall|i: int| 0 <= i < steps.len() && steps[i].kind == MigrationKind::Up
            ==> applied.contains(#[trigger] steps[i].version),
    ensures
        pending_upto(steps, applied, n) == Seq::<usize>::empty(),
    decreases n,
{
    if n > 0 {
        lemma_rerun_prefix(steps, applied, n - 1);
        assert(steps[n - 1].kind == MigrationKind::Up ==> applied.contains(steps[n - 1].version));
    }
}

} // verus!
