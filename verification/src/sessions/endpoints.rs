pub mod login_request;
pub mod sessions_validate;
