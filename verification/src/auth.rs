//! Authentication kernel: password hashing with argon2id, the JWT claims
//! and their expiry, the parsing of `Authorization: Bearer <token>`
//! headers, and the checks on registration and login input.

use vstd::prelude::*;
use crate::text::{concat2, owned, str_eq};
use crate::identity::{parse_uuid, uuid_of_text, Timestamp};
use vstd::string::StringSliceAdditionalSpecFns;
use argon2::password_hash::{PasswordHasher, PasswordVerifier};

verus! {

/// Errors produced by password hashing, JWT handling, and the auth middleware.
#[derive(Debug)]
pub enum AuthError {
    /// `JWT_SECRET` is not configured in the environment.
    MissingSecret,
    /// Password hashing / verification failed.
    Hashing(String),
    /// The supplied token could not be decoded or validated.
    InvalidToken(String),
    /// The token signature is valid but the token has expired.
    TokenExpired,
    /// The token does not carry a well-formed subject / tenant claim.
    InvalidClaim(String),
}

impl AuthError {
    /// The error's text, naming what went wrong.
    pub fn to_string(&self) -> (s: String)
        ensures
            s@ == match self {
                AuthError::MissingSecret => "JWT_SECRET environment variable is not set"@,
                AuthError::Hashing(m) => "password hashing error: "@ + m@,
                AuthError::InvalidToken(m) => "invalid token: "@ + m@,
                AuthError::TokenExpired => "token has expired"@,
                AuthError::InvalidClaim(m) => "token claim error: "@ + m@,
            },
    {
        match self {
            AuthError::MissingSecret => owned("JWT_SECRET environment variable is not set"),
            AuthError::Hashing(m) => concat2("password hashing error: ", m.as_str()),
            AuthError::InvalidToken(m) => concat2("invalid token: ", m.as_str()),
            AuthError::TokenExpired => owned("token has expired"),
            AuthError::InvalidClaim(m) => concat2("token claim error: ", m.as_str()),
        }
    }
}

// ─── Password hashing ──────────────────────────────────────────────────

/// B64-encoded salts (the `password-hash` crate's type).
#[verifier::external_type_specification]
#[verifier::external_body]
pub struct ExSaltString(argon2::password_hash::SaltString);

/// Parsed PHC password hash strings (the `password-hash` crate's type).
#[verifier::external_type_specification]
#[verifier::external_body]
pub struct ExPasswordHash<'a>(argon2::password_hash::PasswordHash<'a>);

/// The parsed PHC string a text denotes, as `password_hash::PasswordHash::new`
/// reads it: `None` when the text is not a PHC string.
pub uninterp spec fn phc_of_text(text: Seq<char>) -> Option<argon2::password_hash::PasswordHash<'static>>;

/// What argon2 verification (`Argon2::default()` through
/// `PasswordVerifier::verify_password`) answers for a password's bytes and
/// a PHC text that parses: `Some(true)` when the hash recomputed with the
/// text's parameters and salt equals the stored one, `Some(false)` when it
/// differs (the wrong-password error), `None` for any other error.
pub uninterp spec fn argon2_verdict(plain: Seq<u8>, hash: Seq<char>) -> Option<bool>;

/// A fresh random salt, from `SaltString::generate` over the operating
/// system's random source. Nothing is claimed of it.
#[verifier::external_body]
fn generate_salt() -> argon2::password_hash::SaltString {
    argon2::password_hash::SaltString::generate(&mut argon2::password_hash::rand_core::OsRng)
}

/// Hash a password with `Argon2::default()` (argon2id, version 19) and the
/// given salt, through `PasswordHasher::hash_password`, returning the PHC
/// string or the error's text. With the default parameters and a generated
/// salt the only failure is a password longer than `u32::MAX` bytes. The
/// PHC string begins with `$argon2id$` (the hash's `Display` writes `$` and
/// the algorithm identifier first), parses back, and verifying the same
/// password against it recomputes the same output.
#[verifier::external_body]
fn argon2_hash(plain: &str, salt: &argon2::password_hash::SaltString) -> (r: Result<String, String>)
    ensures
        plain.spec_bytes().len() <= 0xFFFF_FFFF ==> r is Ok,
        r matches Ok(h) ==> h@.len() >= 10 && h@.take(10) == "$argon2id$"@,
        r matches Ok(h) ==> phc_of_text(h@) is Some && argon2_verdict(plain.spec_bytes(), h@)
            == Some(true),
{
    argon2::Argon2::default()
        .hash_password(plain.as_bytes(), salt)
        .map(|h| h.to_string())
        .map_err(|e| e.to_string())
}

/// Parse a PHC hash string with `PasswordHash::new`, returning the error's
/// text on failure.
#[verifier::external_body]
fn parse_phc<'a>(hash: &'a str) -> (r: Result<argon2::password_hash::PasswordHash<'a>, String>)
    ensures
        r is Ok <==> phc_of_text(hash@) is Some,
        r matches Ok(p) ==> phc_of_text(hash@) == Some(p),
{
    argon2::password_hash::PasswordHash::new(hash).map_err(|e| e.to_string())
}

/// The outcome of checking a password against a parsed hash.
pub enum PasswordCheck {
    Match,
    Mismatch,
    Failure(String),
}

/// Check a password against the parsed form of a PHC text with
/// `Argon2::default()` through `PasswordVerifier::verify_password`: a
/// match, the wrong-password error, or any other error with its text, as
/// `argon2_verdict` names the outcome.
#[verifier::external_body]
fn argon2_check(plain: &str, hash: &str, parsed: &argon2::password_hash::PasswordHash) -> (r:
    PasswordCheck)
    requires
        phc_of_text(hash@) == Some(*parsed),
    ensures
        match argon2_verdict(plain.spec_bytes(), hash@) {
            Some(true) => r is Match,
            Some(false) => r is Mismatch,
            None => r is Failure,
        },
{
    match argon2::Argon2::default().verify_password(plain.as_bytes(), parsed) {
        Ok(()) => PasswordCheck::Match,
        Err(argon2::password_hash::Error::Password) => PasswordCheck::Mismatch,
        Err(e) => PasswordCheck::Failure(e.to_string()),
    }
}

/// Whether a password checks against a stored PHC text: the text parses
/// and argon2 recomputes the stored hash from the password.
pub open spec fn password_verifies(plain: Seq<u8>, hash: Seq<char>) -> bool {
    phc_of_text(hash) is Some && argon2_verdict(plain, hash) == Some(true)
}

/// Hash a plaintext password with argon2id and a fresh random salt.
///
/// Returns the PHC-formatted hash string (it begins with `$argon2id$`), or
/// a hashing error.
pub fn hash_password(plain: &str) -> (r: Result<String, AuthError>)
    ensures
        plain.spec_bytes().len() <= 0xFFFF_FFFF ==> r is Ok,
        r matches Ok(h) ==> h@.len() >= 10 && h@.take(10) == "$argon2id$"@,
        r matches Ok(h) ==> password_verifies(plain.spec_bytes(), h@),
        r matches Err(e) ==> e is Hashing,
{
    let salt = generate_salt();
    match argon2_hash(plain, &salt) {
        Ok(h) => Ok(h),
        Err(e) => Err(AuthError::Hashing(e)),
    }
}

/// Verify a plaintext password against a stored PHC hash.
///
/// Returns `Ok(true)` on match, `Ok(false)` on mismatch, and a hashing
/// error when the stored hash does not parse or verification fails
/// outright.
pub fn verify_password(plain: &str, hash: &str) -> (r: Result<bool, AuthError>)
    ensures
        phc_of_text(hash@) is None ==> r matches Err(AuthError::Hashing(_)),
        phc_of_text(hash@) is Some ==> match argon2_verdict(plain.spec_bytes(), hash@) {
            Some(b) => r == Ok::<bool, AuthError>(b),
            None => r matches Err(AuthError::Hashing(_)),
        },
        password_verifies(plain.spec_bytes(), hash@) ==> r == Ok::<bool, AuthError>(true),
        r matches Err(e) ==> e is Hashing,
{
    let parsed = match parse_phc(hash) {
        Ok(p) => p,
        Err(e) => return Err(AuthError::Hashing(e)),
    };
    match argon2_check(plain, hash, &parsed) {
        PasswordCheck::Match => Ok(true),
        PasswordCheck::Mismatch => Ok(false),
        PasswordCheck::Failure(e) => Err(AuthError::Hashing(e)),
    }
}

// ─── Login decisions ───────────────────────────────────────────────────

/// The stored columns of an account that a login checks.
#[derive(Debug, Clone)]
pub struct LoginAccount {
    pub password_hash: String,
    pub is_active: bool,
}

/// Why a login, or a request for the current user, was refused.
#[derive(Debug)]
pub enum AccessRefusal {
    /// The email belongs to accounts of several tenants and no tenant was
    /// named.
    AmbiguousEmail,
    /// No account has the email, or the password is wrong (the answer does
    /// not tell which).
    InvalidCredentials,
    /// The account is disabled.
    AccountDisabled,
    /// The user a token names no longer exists.
    UserGone,
    /// The stored password hash could not be checked.
    Failure(AuthError),
}

impl AccessRefusal {
    /// The HTTP status of the refusal.
    pub fn status(&self) -> (code: u16)
        ensures
            code == match self {
                AccessRefusal::AccountDisabled => 403u16,
                AccessRefusal::Failure(_) => 500u16,
                _ => 401u16,
            },
    {
        match self {
            AccessRefusal::AccountDisabled => 403,
            AccessRefusal::Failure(_) => 500,
            _ => 401,
        }
    }

    /// The error text of the refusal.
    pub fn message(&self) -> (s: String)
        ensures
            match self {
                AccessRefusal::AmbiguousEmail => s@
                    == "email exists in multiple tenants \u{2014} please provide tenant_id"@,
                AccessRefusal::InvalidCredentials => s@ == "invalid credentials"@,
                AccessRefusal::AccountDisabled => s@ == "account is disabled"@,
                AccessRefusal::UserGone => s@ == "user no longer exists"@,
                AccessRefusal::Failure(e) => s@ == match e {
                    AuthError::MissingSecret => "JWT_SECRET environment variable is not set"@,
                    AuthError::Hashing(m) => "password hashing error: "@ + m@,
                    AuthError::InvalidToken(m) => "invalid token: "@ + m@,
                    AuthError::TokenExpired => "token has expired"@,
                    AuthError::InvalidClaim(m) => "token claim error: "@ + m@,
                },
            },
    {
        match self {
            AccessRefusal::AmbiguousEmail => owned(
                "email exists in multiple tenants \u{2014} please provide tenant_id",
            ),
            AccessRefusal::InvalidCredentials => owned("invalid credentials"),
            AccessRefusal::AccountDisabled => owned("account is disabled"),
            AccessRefusal::UserGone => owned("user no longer exists"),
            AccessRefusal::Failure(e) => e.to_string(),
        }
    }
}

/// Decide a login among the accounts that the email (and tenant, when
/// named) selects: several accounts are ambiguous, none or a wrong password
/// are invalid credentials, a disabled account is refused, and otherwise the
/// password is checked against the stored hash. Returns the index of the
/// account logged into.
pub fn check_login(password: &str, candidates: &Vec<LoginAccount>) -> (r: Result<usize, AccessRefusal>)
    ensures
        candidates@.len() > 1 ==> r matches Err(AccessRefusal::AmbiguousEmail),
        candidates@.len() == 0 ==> r matches Err(AccessRefusal::InvalidCredentials),
        candidates@.len() == 1 && !candidates@[0].is_active ==> r matches Err(
            AccessRefusal::AccountDisabled,
        ),
        candidates@.len() == 1 && candidates@[0].is_active && phc_of_text(
            candidates@[0].password_hash@,
        ) is None ==> r matches Err(AccessRefusal::Failure(AuthError::Hashing(_))),
        candidates@.len() == 1 && candidates@[0].is_active && phc_of_text(
            candidates@[0].password_hash@,
        ) is Some ==> match argon2_verdict(password.spec_bytes(), candidates@[0].password_hash@) {
            Some(true) => r matches Ok(i) && i == 0,
            Some(false) => r matches Err(AccessRefusal::InvalidCredentials),
            None => r matches Err(AccessRefusal::Failure(AuthError::Hashing(_))),
        },
        r matches Ok(i) ==> i == 0 && candidates@.len() == 1 && candidates@[0].is_active
            && password_verifies(password.spec_bytes(), candidates@[0].password_hash@),
        r matches Err(AccessRefusal::Failure(e)) ==> e is Hashing,
        r matches Err(AccessRefusal::UserGone) ==> false,
{
    if candidates.len() > 1 {
        return Err(AccessRefusal::AmbiguousEmail);
    }
    if candidates.len() == 0 {
        return Err(AccessRefusal::InvalidCredentials);
    }
    let account = &candidates[0];
    if !account.is_active {
        return Err(AccessRefusal::AccountDisabled);
    }
    match verify_password(password, account.password_hash.as_str()) {
        Err(e) => Err(AccessRefusal::Failure(e)),
        Ok(false) => Err(AccessRefusal::InvalidCredentials),
        Ok(true) => Ok(0),
    }
}

/// Decide a request for the current user from the account a token names:
/// `None` when no such account exists, else whether it is active.
pub fn check_current_user(account_active: Option<bool>) -> (r: Result<(), AccessRefusal>)
    ensures
        account_active is None ==> r matches Err(AccessRefusal::UserGone),
        account_active == Some(false) ==> r matches Err(AccessRefusal::AccountDisabled),
        account_active == Some(true) ==> r is Ok,
{
    match account_active {
        None => Err(AccessRefusal::UserGone),
        Some(false) => Err(AccessRefusal::AccountDisabled),
        Some(true) => Ok(()),
    }
}

// ─── JWT claims ────────────────────────────────────────────────────────

/// JWT claims carried by every access token.
#[derive(Debug, Clone)]
pub struct Claims {
    /// User id (UUID as string) — JWT standard subject claim.
    pub sub: String,
    /// Tenant id (UUID as string) — the tenant the user belongs to.
    pub tenant_id: String,
    /// Role codes the user holds (e.g. `["CFO", "Accountant"]`).
    pub roles: Vec<String>,
    /// Expiry as a Unix timestamp (seconds).
    pub exp: usize,
}

/// Token lifetime: 24 hours.
pub const TOKEN_TTL_SECS: i64 = 24 * 60 * 60;

/// The expiry of a token issued at `now` (Unix seconds): 24 hours later,
/// as the `usize` the `exp` claim holds.
pub fn token_expiry(now: i64) -> (exp: usize)
    requires
        now + TOKEN_TTL_SECS <= i64::MAX,
    ensures
        exp == (now + TOKEN_TTL_SECS) as usize,
{
    (now + TOKEN_TTL_SECS) as usize
}

impl Claims {
    /// The claims of a token issued at `now` (Unix seconds) for a user of a
    /// tenant with the given roles; it expires 24 hours later.
    pub fn issue(user_id: &str, tenant_id: &str, roles: Vec<String>, now: i64) -> (c: Claims)
        requires
            now + TOKEN_TTL_SECS <= i64::MAX,
        ensures
            c.sub@ == user_id@,
            c.tenant_id@ == tenant_id@,
            c.roles == roles,
            c.exp == (now + TOKEN_TTL_SECS) as usize,
    {
        Claims {
            sub: owned(user_id),
            tenant_id: owned(tenant_id),
            roles,
            exp: token_expiry(now),
        }
    }
}

/// The identity a validated token carries: the user id from the subject
/// claim, the tenant id and the roles. A subject or tenant claim that is
/// not a UUID is refused, the subject checked first.
pub fn identity_of_claims(claims: Claims) -> (r: Result<
    (uuid::Uuid, uuid::Uuid, Vec<String>),
    AuthError,
>)
    ensures
        uuid_of_text(claims.sub@) is None ==> (r matches Err(AuthError::InvalidClaim(m)) && m@
            == "malformed sub (user id)"@),
        uuid_of_text(claims.sub@) is Some && uuid_of_text(claims.tenant_id@) is None ==> (r matches Err(
            AuthError::InvalidClaim(m),
        ) && m@ == "malformed tenant_id"@),
        (uuid_of_text(claims.sub@), uuid_of_text(claims.tenant_id@)) matches (Some(u), Some(t)) ==> (
        r matches Ok(id) && id.0 == u && id.1 == t && id.2 == claims.roles),
{
    let user_id = match parse_uuid(claims.sub.as_str()) {
        Some(u) => u,
        None => return Err(AuthError::InvalidClaim(owned("malformed sub (user id)"))),
    };
    let tenant_id = match parse_uuid(claims.tenant_id.as_str()) {
        Some(t) => t,
        None => return Err(AuthError::InvalidClaim(owned("malformed tenant_id"))),
    };
    Ok((user_id, tenant_id, claims.roles))
}

// ─── Users ─────────────────────────────────────────────────────────────

/// A user account, as the `app_users` table holds it.
#[derive(Debug, Clone)]
pub struct AppUser {
    pub id: uuid::Uuid,
    pub tenant_id: uuid::Uuid,
    /// Login email, unique per tenant.
    pub email: String,
    /// Argon2id PHC hash of the password.
    pub password_hash: String,
    pub full_name: String,
    /// Whether the account may log in.
    pub is_active: bool,
    /// Whether the user bypasses per-tenant role checks.
    pub is_superadmin: bool,
    pub last_login_at: Option<Timestamp>,
    pub created_at: Timestamp,
}

/// The public user payload of the login and current-user answers; it
/// carries no password hash.
#[derive(Debug, Clone)]
pub struct UserInfo {
    pub id: uuid::Uuid,
    pub email: String,
    pub full_name: String,
    pub tenant_id: uuid::Uuid,
    pub roles: Vec<String>,
}

impl AppUser {
    /// The public payload of the user, with the roles resolved separately.
    pub fn to_user_info(&self, roles: Vec<String>) -> (u: UserInfo)
        ensures
            u.id == self.id,
            u.email@ == self.email@,
            u.full_name@ == self.full_name@,
            u.tenant_id == self.tenant_id,
            u.roles == roles,
    {
        UserInfo {
            id: self.id,
            email: owned(self.email.as_str()),
            full_name: owned(self.full_name.as_str()),
            tenant_id: self.tenant_id,
            roles,
        }
    }
}

// ─── Bearer tokens ─────────────────────────────────────────────────────

/// Unicode `White_Space` characters, which `str::trim` removes.
pub open spec fn is_white_space(c: char) -> bool {
    let n = c as u32;
    (0x09 <= n <= 0x0D) || n == 0x20 || n == 0x85 || n == 0xA0 || n == 0x1680 || (0x2000 <= n
        <= 0x200A) || n == 0x2028 || n == 0x2029 || n == 0x202F || n == 0x205F || n == 0x3000
}

fn white_space(c: char) -> (r: bool)
    ensures
        r == is_white_space(c),
{
    let n = c as u32;
    (0x09 <= n && n <= 0x0D) || n == 0x20 || n == 0x85 || n == 0xA0 || n == 0x1680 || (0x2000 <= n
        && n <= 0x200A) || n == 0x2028 || n == 0x2029 || n == 0x202F || n == 0x205F || n == 0x3000
}

/// `s` without leading and trailing white space.
pub open spec fn trimmed(s: Seq<char>) -> Seq<char>
    decreases s.len(),
{
    if s.len() > 0 && is_white_space(s[0]) {
        trimmed(s.drop_first())
    } else if s.len() > 0 && is_white_space(s.last()) {
        trimmed(s.drop_last())
    } else {
        s
    }
}

/// The slice `s@[from..to]` has no white space at either end once bounds
/// are moved inwards past white space.
fn trim_bounds(s: &str, from: usize, to: usize) -> (r: (usize, usize))
    requires
        from <= to <= s@.len(),
    ensures
        from <= r.0 <= r.1 <= to,
        s@.subrange(r.0 as int, r.1 as int) == trimmed(s@.subrange(from as int, to as int)),
    decreases to - from,
{
    if from < to && white_space(s.get_char(from)) {
        let r = trim_bounds(s, from + 1, to);
        assert(s@.subrange(from as int, to as int).drop_first() =~= s@.subrange(from + 1, to as int));
        r
    } else if from < to && white_space(s.get_char(to - 1)) {
        let r = trim_bounds(s, from, to - 1);
        assert(s@.subrange(from as int, to as int).drop_last() =~= s@.subrange(from as int, to - 1));
        r
    } else {
        (from, to)
    }
}

/// `s` without leading and trailing white space, as `str::trim` gives it.
pub fn trim(s: &str) -> (r: &str)
    ensures
        r@ == trimmed(s@),
{
    let n = s.unicode_len();
    let (a, b) = trim_bounds(s, 0, n);
    assert(s@.subrange(0, n as int) =~= s@);
    s.substring_char(a, b)
}

/// Index of the first space in `s`, if any.
pub open spec fn first_space(s: Seq<char>) -> Option<int> {
    if exists|i: int| 0 <= i < s.len() && s[i] == ' ' {
        Some(choose|i: int| 0 <= i < s.len() && s[i] == ' ' && forall|j: int| 0 <= j < i ==> s[j] != ' ')
    } else {
        None
    }
}

/// The token of an `Authorization` header value of the form
/// `Bearer <token>`: the header is split at its first space; the part
/// before must be exactly `Bearer`, and the part after, trimmed of white
/// space, must not be empty.
pub open spec fn bearer_token_of(v: Seq<char>) -> Option<Seq<char>> {
    match first_space(v) {
        None => None,
        Some(i) => if v.take(i) != "Bearer"@ {
            None
        } else if trimmed(v.skip(i + 1)).len() == 0 {
            None
        } else {
            Some(trimmed(v.skip(i + 1)))
        },
    }
}

/// Extract the token from an `Authorization: Bearer <token>` header value.
pub fn bearer_token(value: &str) -> (r: Option<&str>)
    ensures
        match bearer_token_of(value@) {
            None => r is None,
            Some(t) => r matches Some(x) && x@ == t,
        },
{
    let n = value.unicode_len();
    let mut i: usize = 0;
    while i < n
        invariant
            n == value@.len(),
            i <= n,
            forall|j: int| 0 <= j < i ==> value@[j] != ' ',
        ensures
            i == n || value@[i as int] == ' ',
        decreases n - i,
    {
        if value.get_char(i) == ' ' {
            break;
        }
        i = i + 1;
    }
    proof {
        if i < n {
            assert(exists|k: int| 0 <= k < value@.len() && value@[k] == ' ');
            let c = choose|k: int| 0 <= k < value@.len() && value@[k] == ' ' && forall|j: int| 0 <= j < k ==> value@[j] != ' ';
            assert(0 <= c < value@.len() && value@[c] == ' ' && forall|j: int| 0 <= j < c ==> value@[j] != ' ') by {
                assert(0 <= i < value@.len() && value@[i as int] == ' ' && forall|j: int| 0 <= j < i ==> value@[j] != ' ');
            }
            if c < i {
                assert(value@[c] != ' ');
            }
            if c > i {
                assert(value@[i as int] != ' ');
            }
            assert(first_space(value@) == Some(i as int));
        } else {
            assert(first_space(value@) is None);
        }
    }
    if i == n {
        return None;
    }
    let head = value.substring_char(0, i);
    assert(head@ =~= value@.take(i as int));
    if !str_eq(head, "Bearer") {
        return None;
    }
    let rest = value.substring_char(i + 1, n);
    assert(rest@ =~= value@.skip(i + 1));
    let token = trim(rest);
    if token.unicode_len() == 0 {
        None
    } else {
        Some(token)
    }
}

/// Why the authentication layer refused a request.
#[derive(Debug, Clone, Copy, PartialEq, Eq, Structural)]
pub enum AuthFailure {
    /// The request has no `Authorization` header.
    MissingHeader,
    /// The header is not visible text of the form `Bearer <token>`.
    MalformedHeader,
    /// The token did not validate (bad signature, expired, bad claims).
    InvalidToken,
}

impl AuthFailure {
    /// The HTTP status of every refusal by the authentication layer:
    /// `401 Unauthorized`.
    pub fn status(&self) -> (code: u16)
        ensures
            code == 401,
    {
        401
    }

    /// The error text of the `401` answer for this failure.
    pub fn message(&self) -> (m: &'static str)
        ensures
            *self is MissingHeader ==> m@ == "missing Authorization header"@,
            *self is MalformedHeader ==> m@
                == "malformed Authorization header \u{2014} expected 'Bearer <token>'"@,
            *self is InvalidToken ==> m@ == "invalid or expired token"@,
    {
        match self {
            AuthFailure::MissingHeader => "missing Authorization header",
            AuthFailure::MalformedHeader => "malformed Authorization header \u{2014} expected 'Bearer <token>'",
            AuthFailure::InvalidToken => "invalid or expired token",
        }
    }
}

/// The token a request presents. `header` is `None` when the request has
/// no `Authorization` header, `Some(None)` when the header is not visible
/// ASCII text, and `Some(Some(v))` when its text is `v`.
pub fn request_token<'a>(header: Option<Option<&'a str>>) -> (r: Result<&'a str, AuthFailure>)
    ensures
        header is None ==> r == Err::<&str, AuthFailure>(AuthFailure::MissingHeader),
        header == Some(None::<&str>) ==> r == Err::<&str, AuthFailure>(AuthFailure::MalformedHeader),
        forall|v: &str| #![auto] header == Some(Some(v)) ==> match bearer_token_of(v@) {
            None => r == Err::<&str, AuthFailure>(AuthFailure::MalformedHeader),
            Some(t) => r matches Ok(x) && x@ == t,
        },
{
    match header {
        None => Err(AuthFailure::MissingHeader),
        Some(None) => Err(AuthFailure::MalformedHeader),
        Some(Some(v)) => match bearer_token(v) {
            None => Err(AuthFailure::MalformedHeader),
            Some(t) => Ok(t),
        },
    }
}

/// The authenticated caller's identity, which the authentication layer
/// attaches to a request once its token validates.
#[derive(Debug, Clone)]
pub struct UserContext {
    /// Authenticated user id (from the token's subject claim).
    pub user_id: uuid::Uuid,
    /// Tenant the user belongs to (from the token's tenant claim).
    pub tenant_id: uuid::Uuid,
    /// Role codes carried by the token.
    pub roles: Vec<String>,
}

impl UserContext {
    /// The context of a validated token's identity.
    pub fn from_identity(identity: (uuid::Uuid, uuid::Uuid, Vec<String>)) -> (c: UserContext)
        ensures
            c.user_id == identity.0,
            c.tenant_id == identity.1,
            c.roles == identity.2,
    {
        let (user_id, tenant_id, roles) = identity;
        UserContext { user_id, tenant_id, roles }
    }
}

/// Rejection for a handler that asks for the caller's identity when the
/// request carries no authenticated context.
#[derive(Debug, Clone, Copy, PartialEq, Eq, Structural)]
pub struct AuthRejection;

impl AuthRejection {
    /// The HTTP status of the rejection: `401 Unauthorized`.
    pub fn status(&self) -> (code: u16)
        ensures
            code == 401,
    {
        401
    }

    /// The error text of the rejection.
    pub fn message(&self) -> (m: &'static str)
        ensures
            m@ == "unauthenticated"@,
    {
        "unauthenticated"
    }
}

// ─── Registration and login input ──────────────────────────────────────

/// The lowercase mapping of a text, as `str::to_lowercase` computes it
/// (Unicode case mapping).
pub uninterp spec fn lowercase(s: Seq<char>) -> Seq<char>;

/// Lowercase a text with `str::to_lowercase`.
#[verifier::external_body]
fn to_lowercase(s: &str) -> (r: String)
    ensures
        r@ == lowercase(s@),
{
    s.to_lowercase()
}

fn contains_char(s: &str, c: char) -> (r: bool)
    ensures
        r == s@.contains(c),
{
    let n = s.unicode_len();
    let mut i: usize = 0;
    while i < n
        invariant
            n == s@.len(),
            i <= n,
            forall|j: int| 0 <= j < i ==> s@[j] != c,
        decreases n - i,
    {
        if s.get_char(i) == c {
            assert(s@[i as int] == c);
            return true;
        }
        i = i + 1;
    }
    false
}

/// The normalized login email: trimmed and lowercased.
pub open spec fn normalized_email(email: Seq<char>) -> Seq<char> {
    lowercase(trimmed(email))
}

/// Check the input of a registration: the email, trimmed and lowercased,
/// must be non-empty and hold an `@`; the full name must not be blank; the
/// password must be at least 8 bytes long. Returns the normalized email, or
/// the message of the first check that fails.
pub fn validate_registration(email: &str, full_name: &str, password: &str) -> (r: Result<
    String,
    &'static str,
>)
    ensures
        ({
            let e = normalized_email(email@);
            if e.len() == 0 || !e.contains('@') {
                r matches Err(m) && m@ == "a valid email is required"@
            } else if trimmed(full_name@).len() == 0 {
                r matches Err(m) && m@ == "full_name is required"@
            } else if (password.spec_bytes().len() as usize) < 8 {
                r matches Err(m) && m@ == "password must be at least 8 characters"@
            } else {
                r matches Ok(n) && n@ == e
            }
        }),
{
    let normalized = to_lowercase(trim(email));
    if normalized.as_str().unicode_len() == 0 || !contains_char(normalized.as_str(), '@') {
        return Err("a valid email is required");
    }
    if trim(full_name).unicode_len() == 0 {
        return Err("full_name is required");
    }
    if password.len() < 8 {
        return Err("password must be at least 8 characters");
    }
    Ok(normalized)
}

/// Check the input of a login: the email, trimmed and lowercased, and the
/// password must both be non-empty. Returns the normalized email.
pub fn validate_login(email: &str, password: &str) -> (r: Result<String, &'static str>)
    ensures
        ({
            let e = normalized_email(email@);
            if e.len() == 0 || password@.len() == 0 {
                r matches Err(m) && m@ == "email and password are required"@
            } else {
                r matches Ok(n) && n@ == e
            }
        }),
{
    let normalized = to_lowercase(trim(email));
    if normalized.as_str().unicode_len() == 0 || password.unicode_len() == 0 {
        return Err("email and password are required");
    }
    Ok(normalized)
}

} // verus!
