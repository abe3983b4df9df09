pub mod new;
pub mod token_validate;
