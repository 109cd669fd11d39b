//! The five entities and their repositories.
pub mod organization;
pub mod admin;
pub mod seller;
pub mod product;
pub mod sales;
