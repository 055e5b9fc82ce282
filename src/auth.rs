use vstd::prelude::*;

use crate::crypto::{bcrypt_accepts, bcrypt_hash, bcrypt_verify, hs256_token, jwt_sign, unix_now};
use crate::model::{ApiResponse, Claims, ErrorResponse, LoginRequest, LoginResponse};
use crate::store::CredentialStore;

verus! {

/// How long an issued token stays valid, in seconds (one hour).
pub const TOKEN_LIFETIME_SECS: i64 = 3600;

/// The shortest accepted password, in characters.
pub const MIN_PASSWORD_CHARS: usize = 6;

/// Why a registration or a login was refused.
#[derive(Debug, Clone, Copy, PartialEq, Eq, Structural)]
pub enum AuthError {
    /// The email is empty or holds no `@`.
    InvalidEmail,
    /// The password is shorter than six characters.
    WeakPassword,
    /// The email is already registered.
    DuplicateAccount,
    /// The password could not be hashed.
    HashingFailed,
    /// Unknown email or wrong password; the two are not told apart.
    AuthenticationFailed,
    /// The token could not be built or signed.
    TokenSigningFailed,
}

impl AuthError {
    /// The HTTP status that answers this error.
    pub open spec fn spec_status(self) -> u16 {
        match self {
            AuthError::InvalidEmail => 400,
            AuthError::WeakPassword => 400,
            AuthError::DuplicateAccount => 409,
            AuthError::HashingFailed => 500,
            AuthError::AuthenticationFailed => 401,
            AuthError::TokenSigningFailed => 500,
        }
    }

    /// The message sent back for this error.
    pub open spec fn spec_message(self) -> Seq<char> {
        match self {
            AuthError::InvalidEmail => "El correo electrónico no es válido"@,
            AuthError::WeakPassword => "La contraseña debe tener al menos 6 caracteres"@,
            AuthError::DuplicateAccount => "El usuario ya existe"@,
            AuthError::HashingFailed => "Error al procesar la contraseña"@,
            AuthError::AuthenticationFailed => "Credenciales inválidas"@,
            AuthError::TokenSigningFailed => "Error al generar el token"@,
        }
    }

    pub fn status(&self) -> (r: u16)
        ensures
            r == self.spec_status(),
    {
        match self {
            AuthError::InvalidEmail => 400,
            AuthError::WeakPassword => 400,
            AuthError::DuplicateAccount => 409,
            AuthError::HashingFailed => 500,
            AuthError::AuthenticationFailed => 401,
            AuthError::TokenSigningFailed => 500,
        }
    }

    pub fn message(&self) -> (r: String)
        ensures
            r@ == self.spec_message(),
    {
        match self {
            AuthError::InvalidEmail => String::from_str("El correo electrónico no es válido"),
            AuthError::WeakPassword => String::from_str(
                "La contraseña debe tener al menos 6 caracteres",
            ),
            AuthError::DuplicateAccount => String::from_str("El usuario ya existe"),
            AuthError::HashingFailed => String::from_str("Error al procesar la contraseña"),
            AuthError::AuthenticationFailed => String::from_str("Credenciales inválidas"),
            AuthError::TokenSigningFailed => String::from_str("Error al generar el token"),
        }
    }
}

/// An email is acceptable when it is non-empty and holds an `@`.
pub open spec fn email_is_valid(email: Seq<char>) -> bool {
    email.len() > 0 && email.contains('@')
}

/// Checks [`email_is_valid`] on an email.
pub fn is_valid_email(email: &String) -> (r: bool)
    ensures
        r == email_is_valid(email@),
{
    let mut found = false;
    let ghost mut seen: Seq<char> = Seq::empty();
    for c in it: email.as_str().chars()
        invariant
            it.seq() == email@,
            seen == it.seq().take(it.index() as int),
            found == seen.contains('@'),
    {
        proof {
            let next = seen.push(c);
            assert(it.seq().take(it.index() + 1) == next);
            assert(next[seen.len() as int] == c);
            assert(forall|i: int| 0 <= i < seen.len() ==> next[i] == seen[i]);
            seen = next;
        }
        if c == '@' {
            found = true;
        }
    }
    assert(seen == email@);
    found && !email.as_str().is_empty()
}

/// A password is acceptable when it has at least six characters.
pub open spec fn password_is_strong(password: Seq<char>) -> bool {
    password.len() >= MIN_PASSWORD_CHARS
}

/// Checks [`password_is_strong`] on a password.
pub fn is_strong_password(password: &String) -> (r: bool)
    ensures
        r == password_is_strong(password@),
{
    let mut count: usize = 0;
    for _c in it: password.as_str().chars()
        invariant
            it.seq() == password@,
            count == if it.index() < MIN_PASSWORD_CHARS { it.index() as int } else {
                MIN_PASSWORD_CHARS as int
            },
    {
        if count < MIN_PASSWORD_CHARS {
            count = count + 1;
        }
    }
    count >= MIN_PASSWORD_CHARS
}

/// The outcome of the registration checks, applied in order: the email's
/// form, then the password's length, then that the email is new.
pub open spec fn registration_check(
    accounts: Map<Seq<char>, Seq<char>>,
    email: Seq<char>,
    password: Seq<char>,
) -> Result<(), AuthError> {
    if !email_is_valid(email) {
        Err(AuthError::InvalidEmail)
    } else if !password_is_strong(password) {
        Err(AuthError::WeakPassword)
    } else if accounts.contains_key(email) {
        Err(AuthError::DuplicateAccount)
    } else {
        Ok(())
    }
}

/// Runs the registration checks, first failing rule first.
pub fn check_registration(store: &CredentialStore, email: &String, password: &String) -> (r: Result<
    (),
    AuthError,
>)
    requires
        store.wf(),
    ensures
        r == registration_check(store@, email@, password@),
{
    if !is_valid_email(email) {
        return Err(AuthError::InvalidEmail);
    }
    if !is_strong_password(password) {
        return Err(AuthError::WeakPassword);
    }
    if store.contains(email) {
        return Err(AuthError::DuplicateAccount);
    }
    Ok(())
}

/// Stores the outcome of hashing a new account's password: the hash is
/// recorded for `email`, or, if hashing failed, the table is left as it was.
pub fn record_registration(
    store: &mut CredentialStore,
    email: &String,
    hashed: Result<String, bcrypt::BcryptError>,
) -> (r: Result<(), AuthError>)
    requires
        old(store).wf(),
    ensures
        final(store).wf(),
        match hashed {
            Ok(h) => r == Ok::<(), AuthError>(()) && final(store)@ == old(store)@.insert(email@, h@),
            Err(_) => r == Err::<(), AuthError>(AuthError::HashingFailed) && final(store)@ == old(
                store,
            )@,
        },
{
    match hashed {
        Ok(h) => {
            store.insert(email.clone(), h);
            Ok(())
        },
        Err(_) => Err(AuthError::HashingFailed),
    }
}

/// Registers a new account: checks the request, hashes the password with
/// bcrypt and records the hash under the email.
///
/// When a check fails its error comes back and the table is untouched. When
/// all pass, the account is added with a hash that bcrypt accepts for the
/// password, unless hashing itself fails.
pub fn register(store: &mut CredentialStore, email: &String, password: &String) -> (r: Result<
    (),
    AuthError,
>)
    requires
        old(store).wf(),
    ensures
        final(store).wf(),
        registration_check(old(store)@, email@, password@) is Err ==> r == registration_check(
            old(store)@,
            email@,
            password@,
        ),
        registration_check(old(store)@, email@, password@) is Ok ==> r is Ok || r == Err::<
            (),
            AuthError,
        >(AuthError::HashingFailed),
        r is Ok ==> exists|h: Seq<char>|
            bcrypt_accepts(password@, h) && h.len() == 60 && final(store)@ == old(store)@.insert(
                email@,
                h,
            ),
        r is Ok && password@.len() != 60 ==> final(store)@[email@] != password@,
        r is Err ==> final(store)@ == old(store)@,
{
    let checked = check_registration(store, email, password);
    if checked.is_err() {
        return checked;
    }
    let hashed = bcrypt_hash(password);
    let ghost stored = match hashed {
        Ok(ref h) => h@,
        Err(_) => Seq::empty(),
    };
    let r = record_registration(store, email, hashed);
    assert(r is Ok ==> bcrypt_accepts(password@, stored) && stored.len() == 60 && store@ == old(
        store,
    )@.insert(email@, stored));
    r
}

/// The outcome of checking login credentials: accepted when the email is
/// registered and bcrypt accepts the password against its stored hash. An
/// unknown email and a wrong password give the same error.
pub open spec fn credentials_check(
    accounts: Map<Seq<char>, Seq<char>>,
    email: Seq<char>,
    password: Seq<char>,
) -> Result<(), AuthError> {
    if accounts.contains_key(email) && bcrypt_accepts(password, accounts[email]) {
        Ok(())
    } else {
        Err(AuthError::AuthenticationFailed)
    }
}

/// Looks the email up and verifies the password against the stored hash.
pub fn check_credentials(store: &CredentialStore, email: &String, password: &String) -> (r: Result<
    (),
    AuthError,
>)
    requires
        store.wf(),
    ensures
        r == credentials_check(store@, email@, password@),
{
    match store.get(email) {
        Some(stored) => match bcrypt_verify(password, &stored) {
            Ok(true) => Ok(()),
            _ => Err(AuthError::AuthenticationFailed),
        },
        None => Err(AuthError::AuthenticationFailed),
    }
}

/// Whether a token issued at time `now` has an expiry that fits in an `i64`.
pub open spec fn expiry_fits(now: i64) -> bool {
    now as int + TOKEN_LIFETIME_SECS <= i64::MAX
}

impl Claims {
    /// The claims of a token for `email` issued at `now` (seconds since the
    /// Unix epoch): it expires exactly one hour later.
    pub fn issue(email: &String, now: i64) -> (r: Claims)
        requires
            expiry_fits(now),
        ensures
            r.sub@ == email@,
            r.exp == now + TOKEN_LIFETIME_SECS,
    {
        Claims { sub: email.clone(), exp: now + TOKEN_LIFETIME_SECS }
    }
}

/// Turns the outcome of signing into the login outcome: the token, or
/// `TokenSigningFailed`.
pub fn signing_outcome(signed: Result<String, jsonwebtoken::errors::Error>) -> (r: Result<
    String,
    AuthError,
>)
    ensures
        match signed {
            Ok(t) => r == Ok::<String, AuthError>(t),
            Err(_) => r == Err::<String, AuthError>(AuthError::TokenSigningFailed),
        },
{
    match signed {
        Ok(t) => Ok(t),
        Err(_) => Err(AuthError::TokenSigningFailed),
    }
}

/// Signs `claims` into an HS256 token under `secret`.
pub fn sign_claims(claims: &Claims, secret: &String) -> (r: Result<String, AuthError>)
    ensures
        r matches Ok(t) && t@ == hs256_token(claims.sub@, claims.exp, secret@) && t@.len() > 0,
{
    signing_outcome(jwt_sign(&claims.sub, claims.exp, secret))
}

/// Logs in at time `now`: checks the credentials, then issues and signs a
/// token for the email that expires one hour after `now`.
///
/// Refused credentials give `AuthenticationFailed`; an expiry past the range
/// of `i64` gives `TokenSigningFailed`.
pub fn login_at(
    store: &CredentialStore,
    email: &String,
    password: &String,
    now: i64,
    secret: &String,
) -> (r: Result<String, AuthError>)
    requires
        store.wf(),
    ensures
        credentials_check(store@, email@, password@) is Err ==> r == Err::<String, AuthError>(
            AuthError::AuthenticationFailed,
        ),
        credentials_check(store@, email@, password@) is Ok && !expiry_fits(now) ==> r == Err::<
            String,
            AuthError,
        >(AuthError::TokenSigningFailed),
        credentials_check(store@, email@, password@) is Ok && expiry_fits(now) ==> (r matches Ok(t)
            && t@ == hs256_token(email@, (now + TOKEN_LIFETIME_SECS) as i64, secret@) && t@.len()
            > 0),
{
    let checked = check_credentials(store, email, password);
    if checked.is_err() {
        return Err(AuthError::AuthenticationFailed);
    }
    if now > i64::MAX - TOKEN_LIFETIME_SECS {
        return Err(AuthError::TokenSigningFailed);
    }
    let claims = Claims::issue(email, now);
    sign_claims(&claims, secret)
}

/// Logs in at the current time: see [`login_at`].
///
/// Accepted credentials always give a token: the signed token of claims for
/// the email at some issuance time, expiring one hour after it. Refused ones
/// give `AuthenticationFailed`.
pub fn login(store: &CredentialStore, email: &String, password: &String, secret: &String) -> (r:
    Result<String, AuthError>)
    requires
        store.wf(),
    ensures
        credentials_check(store@, email@, password@) is Err ==> r == Err::<String, AuthError>(
            AuthError::AuthenticationFailed,
        ),
        credentials_check(store@, email@, password@) is Ok ==> (r matches Ok(t) && t@.len() > 0
            && exists|now: i64|
            expiry_fits(now) && t@ == hs256_token(
                email@,
                (now + TOKEN_LIFETIME_SECS) as i64,
                secret@,
            )),
{
    let now = unix_now();
    login_at(store, email, password, now, secret)
}

/// Whether `status` is a success status (2xx).
pub open spec fn is_success_status(status: u16) -> bool {
    200 <= status < 300
}

/// The confirmation text returned after a registration.
pub open spec fn registered_message() -> Seq<char> {
    "Usuario registrado exitosamente"@
}

/// The status and body answering a registration outcome: 201 with the
/// confirmation text, or the error's status with its message.
pub fn register_response(outcome: &Result<(), AuthError>) -> (r: (u16, ApiResponse))
    ensures
        match outcome {
            Ok(_) => r.0 == 201 && (r.1 matches ApiResponse::Success(b) && b.token@
                == registered_message()),
            Err(e) => r.0 == e.spec_status() && (r.1 matches ApiResponse::Error(b) && b.error@
                == e.spec_message()),
        },
        is_success_status(r.0) <==> r.1 is Success,
{
    match outcome {
        Ok(_) => (
            201,
            ApiResponse::Success(
                LoginResponse { token: String::from_str("Usuario registrado exitosamente") },
            ),
        ),
        Err(e) => (e.status(), ApiResponse::Error(ErrorResponse { error: e.message() })),
    }
}

/// The status and body answering a login outcome: 200 with the token, or
/// the error's status with its message.
pub fn login_response(outcome: Result<String, AuthError>) -> (r: (u16, ApiResponse))
    ensures
        match outcome {
            Ok(t) => r.0 == 200 && (r.1 matches ApiResponse::Success(b) && b.token@ == t@),
            Err(e) => r.0 == e.spec_status() && (r.1 matches ApiResponse::Error(b) && b.error@
                == e.spec_message()),
        },
        is_success_status(r.0) <==> r.1 is Success,
{
    match outcome {
        Ok(t) => (200, ApiResponse::Success(LoginResponse { token: t })),
        Err(e) => (e.status(), ApiResponse::Error(ErrorResponse { error: e.message() })),
    }
}

/// Answers a registration request: runs [`register`] on the table and turns
/// its outcome into a status and body (see [`register_response`]).
pub fn register_handler(store: &mut CredentialStore, request: &LoginRequest) -> (r: (
    u16,
    ApiResponse,
))
    requires
        old(store).wf(),
    ensures
        final(store).wf(),
        registration_check(old(store)@, request.email@, request.password@) matches Err(e) ==> {
            &&& r.0 == e.spec_status()
            &&& r.1 matches ApiResponse::Error(b) && b.error@ == e.spec_message()
            &&& final(store)@ == old(store)@
        },
        registration_check(old(store)@, request.email@, request.password@) is Ok ==> {
            ||| {
                &&& r.0 == 201
                &&& r.1 matches ApiResponse::Success(b) && b.token@ == registered_message()
                &&& exists|h: Seq<char>|
                    bcrypt_accepts(request.password@, h) && h.len() == 60 && final(store)@ == old(
                        store,
                    )@.insert(request.email@, h)
            }
            ||| {
                &&& r.0 == AuthError::HashingFailed.spec_status()
                &&& r.1 matches ApiResponse::Error(b) && b.error@
                    == AuthError::HashingFailed.spec_message()
                &&& final(store)@ == old(store)@
            }
        },
        is_success_status(r.0) <==> r.1 is Success,
{
    let outcome = register(store, &request.email, &request.password);
    register_response(&outcome)
}

/// Answers a login request at the current time: runs [`login`] and turns
/// its outcome into a status and body (see [`login_response`]).
pub fn login_handler(store: &CredentialStore, request: &LoginRequest, secret: &String) -> (r: (
    u16,
    ApiResponse,
))
    requires
        store.wf(),
    ensures
        credentials_check(store@, request.email@, request.password@) is Err ==> {
            &&& r.0 == 401
            &&& r.1 matches ApiResponse::Error(b) && b.error@
                == AuthError::AuthenticationFailed.spec_message()
        },
        credentials_check(store@, request.email@, request.password@) is Ok ==> {
            &&& r.0 == 200
            &&& r.1 matches ApiResponse::Success(b) && b.token@.len() > 0 && exists|now: i64|
                expiry_fits(now) && b.token@ == hs256_token(
                    request.email@,
                    (now + TOKEN_LIFETIME_SECS) as i64,
                    secret@,
                )
        },
        is_success_status(r.0) <==> r.1 is Success,
{
    let outcome = login(store, &request.email, &request.password, secret);
    login_response(outcome)
}

} // verus!
