pub mod domain;
pub mod routes;
pub mod services;
pub mod utils;
