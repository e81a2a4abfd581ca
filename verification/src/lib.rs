pub mod adapter;
pub mod errors;
pub mod text;
pub mod domain;
pub mod util;
pub mod infra;
pub mod env;
pub mod jwt;
pub mod graphql;

pub use errors::{AppError, AppResult, Kind};
