use core_database::entities::admin::{AdminBy, AdminDAO, AdminRepository, NewAdminDAO, UpdateAdminDAO};
use core_database::entities::organization::{
    creation_outcome, creation_payload, CreateOrganizationError, NewOrganizationDAO, OrganizationBy,
    OrganizationDAO, OrganizationRepository, OrganizationsWhere, UpdateOrganizationDAO,
};
use core_database::entities::product::{
    NewProductDAO, ProductBy, ProductDAO, ProductRepository, SqliteProductDAO, UpdateProductDAO,
};
use core_database::entities::sales::{
    NewSalesDAO, SalesBy, SalesDAO, SalesRepository, SqliteSalesDAO, UpdateSalesDAO,
};
use core_database::entities::seller::{NewSellerDAO, SellerBy, SellerDAO, SellerRepository, UpdateSellerDAO};
use core_database::codec::Money;
use core_database::error::{DatabaseError, StorageFailure};
use core_database::repository::EntityRepository;
use core_database::id::NIL_ID;
use core_database::schema::{migrations, pending_migrations};
use core_database::statement::{all_rows, one_row, optional_row, SqlValue, Statement};
use num_bigint::BigUint;
use sqlx::migrate::{Migrate, Migration, MigrationType};
use sqlx::sqlite::SqliteRow;
use sqlx::{Row, SqlitePool};
use std::future::Future;

fn block<F: Future>(f: F) -> F::Output {
    tokio::runtime::Builder::new_current_thread()
        .enable_all()
        .build()
        .expect("Could not build a runtime")
        .block_on(f)
}

fn failure_of(e: sqlx::Error) -> StorageFailure {
    match e {
        sqlx::Error::ColumnNotFound(column) => StorageFailure::ColumnNotFound(column),
        sqlx::Error::Io(_) => StorageFailure::Io,
        sqlx::Error::Tls(_) => StorageFailure::Tls,
        sqlx::Error::PoolTimedOut => StorageFailure::PoolTimedOut,
        sqlx::Error::Database(d) => StorageFailure::Database(d.to_string()),
        sqlx::Error::Protocol(_) => StorageFailure::Protocol,
        e @ sqlx::Error::TypeNotFound { .. } => {
            let text = e.to_string();
            let name = text.strip_prefix("type named ").and_then(|t| t.strip_suffix(" not found"));
            StorageFailure::TypeNotFound(name.unwrap_or(&text).to_string())
        }
        sqlx::Error::RowNotFound => StorageFailure::RowNotFound,
        _ => StorageFailure::Other,
    }
}

async fn run<R>(
    pool: &SqlitePool,
    statement: &Statement,
    decode: fn(&SqliteRow) -> Result<R, sqlx::Error>,
) -> Result<Vec<R>, StorageFailure> {
    let mut query = sqlx::query(statement.sql);
    for param in statement.params.iter() {
        query = match param {
            SqlValue::Uuid(id) => query.bind(uuid::Uuid::from_u128(*id)),
            SqlValue::Text(text) => query.bind(text.clone()),
            SqlValue::Bool(flag) => query.bind(*flag),
            SqlValue::Int(n) => query.bind(*n),
            SqlValue::Blob(bytes) => query.bind(bytes.clone()),
        };
    }
    let rows = query.fetch_all(pool).await.map_err(failure_of)?;
    rows.iter()
        .map(decode)
        .collect::<Result<Vec<R>, sqlx::Error>>()
        .map_err(failure_of)
}

async fn migrate(pool: &SqlitePool) -> usize {
    let mut conn = pool.acquire().await.expect("Could not acquire a connection");
    conn.ensure_migrations_table().await.expect("Could not create the migrations table");
    let applied: Vec<i64> = conn
        .list_applied_migrations()
        .await
        .expect("Could not list migrations")
        .iter()
        .map(|m| m.version)
        .collect();
    let steps = migrations();
    let plan = pending_migrations(&steps, &applied);
    for i in plan.iter() {
        let step = &steps[*i];
        let migration =
            Migration::new(step.version, step.description.into(), MigrationType::Simple, step.sql.into(), false);
        conn.apply(&migration).await.expect("Could not apply a migration");
    }
    plan.len()
}

async fn database() -> SqlitePool {
    let pool = SqlitePool::connect("sqlite::memory:").await.expect("Could not initialize db");
    migrate(&pool).await;
    pool
}

fn id(row: &SqliteRow, column: &str) -> Result<u128, sqlx::Error> {
    Ok(row.try_get::<uuid::Uuid, _>(column)?.as_u128())
}

fn organization_row(row: &SqliteRow) -> Result<OrganizationDAO, sqlx::Error> {
    Ok(OrganizationDAO { id: id(row, "id")?, name: row.try_get("name")?, active: row.try_get("active")? })
}

fn admin_row(row: &SqliteRow) -> Result<AdminDAO, sqlx::Error> {
    Ok(AdminDAO {
        id: id(row, "id")?,
        organization_id: id(row, "organization_id")?,
        email: row.try_get("email")?,
        password: row.try_get("password")?,
        is_default: row.try_get("is_default")?,
    })
}

fn seller_row(row: &SqliteRow) -> Result<SellerDAO, sqlx::Error> {
    Ok(SellerDAO {
        id: id(row, "id")?,
        organization_id: id(row, "organization_id")?,
        email: row.try_get("email")?,
        password: row.try_get("password")?,
        active: row.try_get("active")?,
        created_at: row.try_get("created_at")?,
    })
}

fn product_row(row: &SqliteRow) -> Result<SqliteProductDAO, sqlx::Error> {
    Ok(SqliteProductDAO {
        id: id(row, "id")?,
        organization_id: id(row, "organization_id")?,
        name: row.try_get("name")?,
        description: row.try_get("description")?,
        amount: row.try_get("amount")?,
        price: row.try_get("price")?,
        created_at: row.try_get("created_at")?,
        updated_at: row.try_get("updated_at")?,
    })
}

fn sale_row(row: &SqliteRow) -> Result<SqliteSalesDAO, sqlx::Error> {
    Ok(SqliteSalesDAO {
        id: id(row, "id")?,
        product_id: id(row, "product_id")?,
        seller_id: id(row, "seller_id")?,
        amount: row.try_get("amount")?,
        total_price: row.try_get("total_price")?,
        created_at: row.try_get("created_at")?,
        updated_at: row.try_get("updated_at")?,
    })
}

async fn create_organization(db: &SqlitePool, name: &str) -> OrganizationDAO {
    let statement = OrganizationRepository::insert(NewOrganizationDAO { name: name.to_string() }).unwrap();
    one_row(run(db, &statement, organization_row).await).expect("Could not create organization")
}

async fn insert_product(db: &SqlitePool, input: NewProductDAO) -> Result<ProductDAO, DatabaseError> {
    one_row(run(db, &ProductRepository::insert(input).unwrap(), product_row).await).map(ProductDAO::from_row)
}

async fn try_get_product(db: &SqlitePool, key: ProductBy) -> Result<Option<ProductDAO>, DatabaseError> {
    optional_row(run(db, &ProductRepository::try_get(key).unwrap(), product_row).await).map(|r| r.map(ProductDAO::from_row))
}

async fn insert_seller(db: &SqlitePool, input: NewSellerDAO) -> Result<SellerDAO, DatabaseError> {
    one_row(run(db, &SellerRepository::insert(input).unwrap(), seller_row).await)
}

async fn insert_sale(db: &SqlitePool, input: NewSalesDAO) -> Result<SalesDAO, DatabaseError> {
    one_row(run(db, &SalesRepository::insert(input).unwrap(), sale_row).await).map(SalesDAO::from_row)
}

async fn try_get_sale(db: &SqlitePool, key: SalesBy) -> Result<Option<SalesDAO>, DatabaseError> {
    optional_row(run(db, &SalesRepository::try_get(key).unwrap(), sale_row).await).map(|r| r.map(SalesDAO::from_row))
}

fn money(v: &BigUint) -> Money {
    Money::from_digits(v.to_u32_digits())
}

#[test]
fn organization_queries() {
    block(async {
        let db = database().await;
        let organization = create_organization(&db, "dev3").await;
        assert!(organization.active);
        assert_eq!(organization.name, "dev3");

        let organization = one_row(run(&db, &OrganizationRepository::get(OrganizationBy::Id(organization.id)).unwrap(), organization_row).await)
            .expect("Could not find organization");
        assert!(organization.active);
        assert_eq!(organization.name, "dev3");

        let organization =
            one_row(run(&db, &OrganizationRepository::get(OrganizationBy::Name(organization.name)).unwrap(), organization_row).await)
                .expect("Could not find organization");
        assert!(organization.active);
        assert_eq!(organization.name, "dev3");

        let maybe_organization =
            optional_row(run(&db, &OrganizationRepository::try_get(OrganizationBy::Id(organization.id)).unwrap(), organization_row).await)
                .expect("Could not find organization");
        assert!(maybe_organization.is_some());

        let maybe_organization =
            optional_row(run(&db, &OrganizationRepository::try_get(OrganizationBy::Id(NIL_ID)).unwrap(), organization_row).await)
                .expect("Could not find organization");
        assert!(maybe_organization.is_none());

        let statement = OrganizationRepository::update(
            OrganizationBy::Id(organization.id),
            UpdateOrganizationDAO { name: "dev4".to_string(), active: false },
        )
        .expect("Could not update organization by id");
        let updated = one_row(run(&db, &statement, organization_row).await).expect("Could not update organization by id");
        assert_eq!(updated.name, "dev4");
        assert_ne!(updated.name, organization.name);
        assert!(!updated.active);

        let updated = OrganizationRepository::update(
            OrganizationBy::Name(updated.name),
            UpdateOrganizationDAO { name: "dev45".to_string(), active: true },
        )
        .unwrap_err();
        assert_eq!(updated, DatabaseError::NotImplemented);

        let statement =
            OrganizationRepository::delete(OrganizationBy::Id(organization.id)).expect("Could not delete organization by id");
        let _ = one_row(run(&db, &statement, organization_row).await).expect("Could not delete organization by id");

        let maybe_organization =
            optional_row(run(&db, &OrganizationRepository::try_get(OrganizationBy::Id(organization.id)).unwrap(), organization_row).await)
                .expect("Could not find organization");
        assert!(maybe_organization.is_none());

        let deleted = OrganizationRepository::delete(OrganizationBy::Name(organization.name)).unwrap_err();
        assert_eq!(deleted, DatabaseError::NotImplemented);
    })
}

#[test]
fn admin_queries() {
    block(async {
        let db = database().await;
        let organization = create_organization(&db, "dev").await;
        let statement = AdminRepository::insert(NewAdminDAO {
            organization_id: organization.id,
            email: "admin@gmail.com".to_string(),
            password: "test1".to_string(),
            is_default: false,
        }).unwrap();
        let result = one_row(run(&db, &statement, admin_row).await).expect("Could not insert admin");
        assert_eq!(result.email, "admin@gmail.com");
        assert_eq!(result.password, "test1");
        assert_eq!(result.organization_id, organization.id);
        assert!(!result.is_default);

        let admin = one_row(run(&db, &AdminRepository::get(AdminBy::Id(result.id)).unwrap(), admin_row).await).expect("Admin not found");
        assert_eq!(result.email, admin.email);

        let admin =
            optional_row(run(&db, &AdminRepository::try_get(AdminBy::Id(result.id)).unwrap(), admin_row).await).expect("Admin not found");
        assert!(admin.is_some());

        let maybe_admin = optional_row(run(&db, &AdminRepository::try_get(AdminBy::Id(NIL_ID)).unwrap(), admin_row).await)
            .expect("Could not get admin info");
        assert!(maybe_admin.is_none());

        let statement = AdminRepository::update(
            AdminBy::Id(result.id),
            UpdateAdminDAO { password: "test34".to_string(), is_default: true },
        ).unwrap();
        let updated = one_row(run(&db, &statement, admin_row).await).expect("Could not update admin info");
        assert_eq!(updated.id, result.id);
        assert_eq!(updated.email, "admin@gmail.com");
        assert_ne!(updated.password, result.password);
        assert!(updated.is_default);

        let _ = one_row(run(&db, &AdminRepository::delete(AdminBy::Id(result.id)).unwrap(), admin_row).await)
            .expect("Could not delete admin");

        let admin =
            optional_row(run(&db, &AdminRepository::try_get(AdminBy::Id(result.id)).unwrap(), admin_row).await).expect("Admin not found");
        assert!(admin.is_none());
    })
}

#[test]
fn product_queries() {
    block(async {
        let db = database().await;
        let organization = create_organization(&db, "test").await;
        let product = insert_product(
            &db,
            NewProductDAO {
                organization_id: organization.id,
                name: "Iphone".to_string(),
                description: "smartphone".to_string(),
                amount: 10,
                price: money(&BigUint::from(5000u32)),
            },
        )
        .await
        .expect("Could not create a new product");
        assert_eq!(product.name, "Iphone");
        assert_eq!(product.description, "smartphone");
        assert_eq!(product.amount, 10);
        assert_eq!(product.price, money(&BigUint::from(5000u32)));

        let product = one_row(run(&db, &ProductRepository::get(ProductBy::Id(product.id)).unwrap(), product_row).await)
            .map(ProductDAO::from_row)
            .expect("Could not find a new product");
        assert_eq!(product.name, "Iphone");
        assert_eq!(product.description, "smartphone");
        assert_eq!(product.amount, 10);
        assert_eq!(product.price, money(&BigUint::from(5000u32)));

        let maybe_product = try_get_product(&db, ProductBy::Id(NIL_ID)).await.expect("Could not find a new product");
        assert!(maybe_product.is_none());

        let maybe_product = try_get_product(&db, ProductBy::Id(product.id)).await.expect("Could not find a new product");
        assert!(maybe_product.is_some());

        let statement = ProductRepository::update(
            ProductBy::Id(product.id),
            UpdateProductDAO {
                name: "Iphone XR".to_string(),
                description: "smartphone premium".to_string(),
                amount: 11,
                price: money(&BigUint::from(4000u32)),
            },
        ).unwrap();
        let updated_product = one_row(run(&db, &statement, product_row).await)
            .map(ProductDAO::from_row)
            .expect("Could not update a product");
        assert!(product.name != updated_product.name);
        assert!(product.description != updated_product.description);
        assert!(product.amount != updated_product.amount);
        assert!(product.price != updated_product.price);

        let deleted = one_row(run(&db, &ProductRepository::delete(ProductBy::Id(product.id)).unwrap(), product_row).await)
            .map(ProductDAO::from_row)
            .expect("Could not delete a product");

        let maybe_product = try_get_product(&db, ProductBy::Id(deleted.id)).await.expect("Could not find a product");
        assert!(maybe_product.is_none());
    })
}

#[test]
fn sales_queries() {
    block(async {
        let db = database().await;
        let organization = create_organization(&db, "test").await;
        let product = insert_product(
            &db,
            NewProductDAO {
                organization_id: organization.id,
                name: "Iphone".to_string(),
                description: "smartphone".to_string(),
                amount: 10,
                price: money(&BigUint::from(5000u32)),
            },
        )
        .await
        .expect("Could not create a new product");
        let seller = insert_seller(
            &db,
            NewSellerDAO {
                organization_id: organization.id,
                email: "test@gmail.com".to_string(),
                password: "test123".to_string(),
            },
        )
        .await
        .expect("Could not create a seller");

        let price = BigUint::new(product.price.digits());
        let sales = insert_sale(
            &db,
            NewSalesDAO {
                product_id: product.id,
                seller_id: seller.id,
                amount: 2,
                total_price: money(&(price * 2u32)),
            },
        )
        .await
        .expect("Could not create a new sale");

        let sales = one_row(run(&db, &SalesRepository::get(SalesBy::Id(sales.id)).unwrap(), sale_row).await)
            .map(SalesDAO::from_row)
            .expect("Could not get sales");
        assert_eq!(sales.amount, 2);
        assert_eq!(sales.product_id, product.id);
        assert_eq!(sales.seller_id, seller.id);

        let sales = try_get_sale(&db, SalesBy::Id(sales.id)).await.expect("Could not get sales").unwrap();
        assert_eq!(sales.amount, 2);
        assert_eq!(sales.product_id, product.id);
        assert_eq!(sales.seller_id, seller.id);

        let maybe_sales = try_get_sale(&db, SalesBy::Id(NIL_ID)).await.expect("Could not get sales");
        assert!(maybe_sales.is_none());

        let statement = SalesRepository::update(
            SalesBy::Id(sales.id),
            UpdateSalesDAO { amount: 4, total_price: money(&BigUint::from(34u32)) },
        ).unwrap();
        let updated = one_row(run(&db, &statement, sale_row).await).map(SalesDAO::from_row).expect("Could not get sales");
        assert_eq!(updated.amount, 4);
        assert_eq!(updated.total_price, money(&BigUint::from(34u32)));
        assert_eq!(updated.product_id, product.id);
        assert_eq!(updated.seller_id, seller.id);

        let deleted = one_row(run(&db, &SalesRepository::delete(SalesBy::Id(sales.id)).unwrap(), sale_row).await)
            .map(SalesDAO::from_row)
            .expect("Could not get sales");

        let maybe_sales = try_get_sale(&db, SalesBy::Id(deleted.id)).await.expect("Could not get sales");
        assert!(maybe_sales.is_none());
    })
}

#[test]
fn seller_queries() {
    block(async {
        let db = database().await;
        let organization = create_organization(&db, "test").await;
        let seller = insert_seller(
            &db,
            NewSellerDAO {
                organization_id: organization.id,
                email: "test@gmail.com".to_string(),
                password: "test123".to_string(),
            },
        )
        .await
        .expect("Could not create a seller");

        let seller = one_row(run(&db, &SellerRepository::get(SellerBy::Id(seller.id)).unwrap(), seller_row).await)
            .expect("Could not find seller");
        assert_eq!(seller.organization_id, organization.id);
        assert_eq!(seller.email, "test@gmail.com");
        assert_eq!(seller.password, "test123");
        assert!(seller.active);

        let seller = optional_row(run(&db, &SellerRepository::try_get(SellerBy::Id(seller.id)).unwrap(), seller_row).await)
            .expect("Could not find seller")
            .unwrap();
        assert_eq!(seller.organization_id, organization.id);
        assert_eq!(seller.email, "test@gmail.com");
        assert_eq!(seller.password, "test123");
        assert!(seller.active);

        let statement = SellerRepository::update(
            SellerBy::Id(seller.id),
            UpdateSellerDAO { password: "newpassword".to_string(), active: false },
        ).unwrap();
        let updated = one_row(run(&db, &statement, seller_row).await).expect("Could not find seller");
        assert_eq!(updated.password, "newpassword");
        assert!(!updated.active);

        let deleted = one_row(run(&db, &SellerRepository::delete(SellerBy::Id(seller.id)).unwrap(), seller_row).await)
            .expect("Could not delete seller");

        let maybe_seller = optional_row(run(&db, &SellerRepository::try_get(SellerBy::Id(deleted.id)).unwrap(), seller_row).await)
            .expect("Could not find seller");
        assert!(maybe_seller.is_none());
    })
}

#[test]
fn get_of_missing_row_is_not_found() {
    block(async {
        let db = database().await;
        let got = one_row(run(&db, &OrganizationRepository::get(OrganizationBy::Id(NIL_ID)).unwrap(), organization_row).await);
        assert_eq!(got, Err(DatabaseError::NotFound));
        let probed = optional_row(run(&db, &OrganizationRepository::try_get(OrganizationBy::Id(NIL_ID)).unwrap(), organization_row).await);
        assert_eq!(probed, Ok(None));
    })
}

#[test]
fn duplicate_organization_name_fails() {
    block(async {
        let db = database().await;
        let first = create_organization(&db, "acme").await;
        let second = create_organization(&db, "globex").await;
        assert_ne!(first.id, second.id);
        let again = one_row(
            run(&db, &OrganizationRepository::insert(NewOrganizationDAO { name: "acme".to_string() }).unwrap(), organization_row).await,
        );
        assert!(matches!(again, Err(DatabaseError::QueryFailed(_))));
        assert_eq!(creation_outcome(again), Err(CreateOrganizationError::AlreadyExists));

        let probe = optional_row(
            run(&db, &OrganizationRepository::try_get(OrganizationBy::Name("acme".to_string())).unwrap(), organization_row).await,
        );
        assert_eq!(creation_payload("acme".to_string(), probe), Err(CreateOrganizationError::AlreadyExists));
        let probe = optional_row(
            run(&db, &OrganizationRepository::try_get(OrganizationBy::Name("initech".to_string())).unwrap(), organization_row).await,
        );
        assert_eq!(
            creation_payload("initech".to_string(), probe),
            Ok(NewOrganizationDAO { name: "initech".to_string() })
        );
    })
}

#[test]
fn organizations_are_listed_by_active_flag() {
    block(async {
        let db = database().await;
        let a = create_organization(&db, "a").await;
        let _b = create_organization(&db, "b").await;
        let statement = OrganizationRepository::update(
            OrganizationBy::Id(a.id),
            UpdateOrganizationDAO { name: "a".to_string(), active: false },
        )
        .unwrap();
        one_row(run(&db, &statement, organization_row).await).unwrap();
        let active = OrganizationsWhere::Active { active: true, limit: 10, offset: 0 };
        let listed = all_rows(run(&db, &OrganizationRepository::get_all(active).unwrap(), organization_row).await).unwrap();
        assert_eq!(listed.len(), 1);
        assert_eq!(listed[0].name, "b");
        let inactive = OrganizationsWhere::Active { active: false, limit: 10, offset: 1 };
        let listed = all_rows(run(&db, &OrganizationRepository::get_all(inactive).unwrap(), organization_row).await).unwrap();
        assert!(listed.is_empty());
    })
}

#[test]
fn referenced_rows_cannot_be_deleted() {
    block(async {
        let db = database().await;
        let organization = create_organization(&db, "dev").await;
        let product = insert_product(
            &db,
            NewProductDAO {
                organization_id: organization.id,
                name: "Iphone".to_string(),
                description: "smartphone".to_string(),
                amount: 10,
                price: Money::from_u64(5000),
            },
        )
        .await
        .unwrap();
        let seller = insert_seller(
            &db,
            NewSellerDAO { organization_id: organization.id, email: "s@x.io".to_string(), password: "p".to_string() },
        )
        .await
        .unwrap();
        let sale = insert_sale(
            &db,
            NewSalesDAO { product_id: product.id, seller_id: seller.id, amount: 1, total_price: Money::from_u64(5000) },
        )
        .await
        .unwrap();

        let deleted = one_row(run(&db, &ProductRepository::delete(ProductBy::Id(product.id)).unwrap(), product_row).await);
        assert!(matches!(deleted, Err(DatabaseError::QueryFailed(_))));
        let deleted = one_row(run(&db, &SellerRepository::delete(SellerBy::Id(seller.id)).unwrap(), seller_row).await);
        assert!(matches!(deleted, Err(DatabaseError::QueryFailed(_))));
        assert!(try_get_product(&db, ProductBy::Id(product.id)).await.unwrap().is_some());
        assert!(try_get_sale(&db, SalesBy::Id(sale.id)).await.unwrap().is_some());

        let dangling = insert_sale(
            &db,
            NewSalesDAO { product_id: NIL_ID, seller_id: seller.id, amount: 1, total_price: Money::zero() },
        )
        .await;
        assert!(matches!(dangling, Err(DatabaseError::QueryFailed(_))));
    })
}

#[test]
fn sale_lifecycle_scenario() {
    block(async {
        let db = database().await;
        let organization = create_organization(&db, "dev").await;
        let product = insert_product(
            &db,
            NewProductDAO {
                organization_id: organization.id,
                name: "Iphone".to_string(),
                description: "smartphone".to_string(),
                amount: 10,
                price: Money::from_u64(5000),
            },
        )
        .await
        .unwrap();
        let seller = insert_seller(
            &db,
            NewSellerDAO {
                organization_id: organization.id,
                email: "test@gmail.com".to_string(),
                password: "test123".to_string(),
            },
        )
        .await
        .unwrap();
        let total = money(&(BigUint::new(product.price.digits()) * 2u32));
        assert_eq!(total, Money::from_u64(10000));
        let sale = insert_sale(
            &db,
            NewSalesDAO { product_id: product.id, seller_id: seller.id, amount: 2, total_price: total.clone() },
        )
        .await
        .unwrap();

        let got = one_row(run(&db, &SalesRepository::get(SalesBy::Id(sale.id)).unwrap(), sale_row).await)
            .map(SalesDAO::from_row)
            .unwrap();
        assert_eq!(got, sale);
        assert_eq!(got.amount, 2);
        assert_eq!(got.product_id, product.id);
        assert_eq!(got.seller_id, seller.id);
        assert_eq!(got.total_price, total);

        let statement =
            SalesRepository::update(SalesBy::Id(sale.id), UpdateSalesDAO { amount: 4, total_price: total.clone() }).unwrap();
        let updated = one_row(run(&db, &statement, sale_row).await).map(SalesDAO::from_row).unwrap();
        assert_eq!(updated.amount, 4);
        assert_eq!(updated.id, sale.id);
        assert_eq!(updated.product_id, product.id);
        assert_eq!(updated.seller_id, seller.id);
        assert_eq!(updated.created_at, sale.created_at);
        assert!(updated.updated_at > sale.updated_at);

        let deleted = one_row(run(&db, &SalesRepository::delete(SalesBy::Id(sale.id)).unwrap(), sale_row).await)
            .map(SalesDAO::from_row)
            .unwrap();
        assert_eq!(deleted.amount, 4);
        assert!(try_get_sale(&db, SalesBy::Id(sale.id)).await.unwrap().is_none());
    })
}

#[test]
fn large_price_survives_storage() {
    block(async {
        let db = database().await;
        let organization = create_organization(&db, "dev").await;
        let big = BigUint::parse_bytes(b"340282366920938463463374607431768211456123", 10).unwrap();
        let product = insert_product(
            &db,
            NewProductDAO {
                organization_id: organization.id,
                name: "yacht".to_string(),
                description: "large".to_string(),
                amount: 1,
                price: money(&big),
            },
        )
        .await
        .unwrap();
        let read = try_get_product(&db, ProductBy::Id(product.id)).await.unwrap().unwrap();
        assert_eq!(BigUint::new(read.price.digits()), big);
        assert_eq!(read, product);
    })
}

#[test]
fn migrations_run_once() {
    block(async {
        let pool = SqlitePool::connect("sqlite::memory:").await.unwrap();
        assert_eq!(migrate(&pool).await, 5);
        assert_eq!(migrate(&pool).await, 0);
        create_organization(&pool, "dev").await;
    })
}

#[test]
fn admins_and_sellers_are_found_by_email() {
    block(async {
        let db = database().await;
        let organization = create_organization(&db, "dev").await;
        let statement = AdminRepository::insert(NewAdminDAO {
            organization_id: organization.id,
            email: "admin@gmail.com".to_string(),
            password: "test1".to_string(),
            is_default: true,
        })
        .unwrap();
        let admin = one_row(run(&db, &statement, admin_row).await).unwrap();
        let by_email = AdminRepository::get(AdminBy::Email("admin@gmail.com".to_string())).unwrap();
        assert_eq!(one_row(run(&db, &by_email, admin_row).await), Ok(admin));
        let missing = AdminRepository::try_get(AdminBy::Email("nobody@gmail.com".to_string())).unwrap();
        assert_eq!(optional_row(run(&db, &missing, admin_row).await), Ok(None));

        let seller = insert_seller(
            &db,
            NewSellerDAO {
                organization_id: organization.id,
                email: "test@gmail.com".to_string(),
                password: "test123".to_string(),
            },
        )
        .await
        .unwrap();
        let by_email = SellerRepository::try_get(SellerBy::Email("test@gmail.com".to_string())).unwrap();
        assert_eq!(optional_row(run(&db, &by_email, seller_row).await), Ok(Some(seller)));
        let missing = SellerRepository::get(SellerBy::Email("nobody@gmail.com".to_string())).unwrap();
        assert_eq!(one_row(run(&db, &missing, seller_row).await), Err(DatabaseError::NotFound));
    })
}
