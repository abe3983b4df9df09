pub mod models;
pub mod stamps;
pub mod endpoints;
