use vstd::prelude::*;

verus! {

/// Credentials sent to the login and registration operations.
pub struct LoginRequest {
    pub email: String,
    pub password: String,
}

/// Body of a successful answer: a signed token after login, or a
/// confirmation text after registration.
pub struct LoginResponse {
    pub token: String,
}

/// Body of a failed answer: a human-readable message.
pub struct ErrorResponse {
    pub error: String,
}

/// The answer envelope: exactly one of a success body or an error body.
pub enum ApiResponse {
    Success(LoginResponse),
    Error(ErrorResponse),
}

/// Claims carried by a session token: the account's email and the absolute
/// expiry time in seconds since the Unix epoch.
pub struct Claims {
    pub sub: String,
    pub exp: i64,
}

} // verus!
