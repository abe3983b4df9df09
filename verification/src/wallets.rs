pub mod models;
pub mod endpoints;
