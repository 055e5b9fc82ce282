pub mod auth;
pub mod crypto;
pub mod model;
pub mod store;

pub use model::{LoginRequest, LoginResponse};
