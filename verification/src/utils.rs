pub mod auth;
pub mod constants;
pub mod decimal;
pub mod strings;
