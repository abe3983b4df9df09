pub mod models;
pub mod openpgp;
pub mod endpoints;
