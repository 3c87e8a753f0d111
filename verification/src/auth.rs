use vstd::prelude::*;

verus! {

/// The error type of the `bcrypt` crate. Nothing is known of a value of it.
#[verifier::external_type_specification]
#[verifier::external_body]
pub struct ExBcryptError(bcrypt::BcryptError);

/// The work factor with which new passwords are hashed.
pub const HASH_COST: u32 = 12;

/// Why a user could not be registered or logged in.
#[derive(Debug, Clone, Copy, PartialEq, Eq, Structural)]
pub enum AuthError {
    /// The password could not be hashed.
    HashFailed,
    /// The new user could not be stored.
    InsertFailed,
    /// The user could not be looked up.
    QueryFailed,
    /// The stored hash could not be checked against the password.
    VerifyFailed,
    /// No such user, or the password is wrong.
    InvalidCredentials,
}

impl AuthError {
    /// The text shown to a user for this error.
    pub open spec fn message_text(self) -> Seq<char> {
        match self {
            AuthError::HashFailed => "Failed to hash password"@,
            AuthError::InsertFailed => "Failed to insert user"@,
            AuthError::QueryFailed => "Failed to query database"@,
            AuthError::VerifyFailed => "Failed to verify password"@,
            AuthError::InvalidCredentials => "Invalid username or password"@,
        }
    }

    /// Writes the text shown to a user for this error.
    pub fn message(&self) -> (text: String)
        ensures
            text@ == self.message_text(),
    {
        match self {
            AuthError::HashFailed => String::from_str("Failed to hash password"),
            AuthError::InsertFailed => String::from_str("Failed to insert user"),
            AuthError::QueryFailed => String::from_str("Failed to query database"),
            AuthError::VerifyFailed => String::from_str("Failed to verify password"),
            AuthError::InvalidCredentials => String::from_str("Invalid username or password"),
        }
    }
}

/// What `bcrypt::verify` finds for a password and a stored hash: whether
/// the two match, or nothing where the hash cannot be checked.
pub uninterp spec fn password_matches(password: Seq<char>, hash: Seq<char>) -> Option<bool>;

/// Calls `bcrypt::verify`, which parses the stored hash, hashes the
/// password again with the cost and salt found in it, and compares. The
/// outcome depends on the two texts alone; it is an error where the stored
/// text is no bcrypt hash.
#[verifier::external_body]
fn bcrypt_verify(password: &str, hash: &str) -> (r: Result<bool, bcrypt::BcryptError>)
    ensures
        password_matches(password@, hash@) == match r {
            Ok(same) => Some(same),
            Err(_) => None::<bool>,
        },
{
    bcrypt::verify(password, hash)
}

/// Calls `bcrypt::hash`, which draws a random salt and hashes the password
/// with it. A hash that comes back is a text of 60 characters; a cost
/// outside 4 to 31 gives an error.
#[verifier::external_body]
fn bcrypt_hash(password: &str, cost: u32) -> (r: Result<String, bcrypt::BcryptError>)
    ensures
        r matches Ok(hash) ==> hash@.len() == 60,
        !(4 <= cost <= 31) ==> r is Err,
{
    bcrypt::hash(password, cost)
}

/// The verdict on a login, given what the check of the password against
/// the stored hash found.
pub open spec fn verdict(checked: Option<bool>) -> Result<(), AuthError> {
    match checked {
        Some(true) => Ok(()),
        Some(false) => Err(AuthError::InvalidCredentials),
        None => Err(AuthError::VerifyFailed),
    }
}

/// The verdict on a login for a user with the stored hash `stored`, or
/// with none where the user is unknown.
pub open spec fn login_verdict(stored: Option<Seq<char>>, password: Seq<char>) -> Result<
    (),
    AuthError,
> {
    match stored {
        Some(hash) => verdict(password_matches(password, hash)),
        None => Err(AuthError::InvalidCredentials),
    }
}

/// Decides a login from the outcome of the password check: a match lets
/// the user in, a mismatch is `InvalidCredentials`, a check that could not
/// be made is `VerifyFailed`.
pub fn decide(checked: Option<bool>) -> (r: Result<(), AuthError>)
    ensures
        r == verdict(checked),
{
    match checked {
        Some(true) => Ok(()),
        Some(false) => Err(AuthError::InvalidCredentials),
        None => Err(AuthError::VerifyFailed),
    }
}

/// Checks `password` against the hash stored for a user; `stored` is
/// `None` where the user is unknown, which is `InvalidCredentials`.
pub fn authenticate(stored: Option<&str>, password: &str) -> (r: Result<(), AuthError>)
    ensures
        r == login_verdict(
            match stored {
                Some(hash) => Some(hash@),
                None => None,
            },
            password@,
        ),
{
    match stored {
        Some(hash) => {
            let checked = match bcrypt_verify(password, hash) {
                Ok(same) => Some(same),
                Err(_) => None,
            };
            decide(checked)
        },
        None => Err(AuthError::InvalidCredentials),
    }
}

/// Hashes a new user's password for storing. Fails with `HashFailed` where
/// no hash could be made; a hash that comes back has 60 characters.
pub fn hash_password(password: &str) -> (r: Result<String, AuthError>)
    ensures
        match r {
            Ok(hash) => hash@.len() == 60,
            Err(e) => e == AuthError::HashFailed,
        },
{
    match bcrypt_hash(password, HASH_COST) {
        Ok(hash) => Ok(hash),
        Err(_) => Err(AuthError::HashFailed),
    }
}

} // verus!
