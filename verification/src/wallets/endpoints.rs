pub mod balance_get;
pub mod balance_change;
