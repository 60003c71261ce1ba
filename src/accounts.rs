use crate::errors::{ApiError, BAD_REQUEST, custom};
use crate::models::UserCreate;
use crate::passwords::{
    CREDENTIAL_LEN, ITERATIONS, SALT_LEN, PasswordHash, PasswordHashView, hash_password, hash_text,
    parse_hash_spec, password_matches, pbkdf2_hmac_sha512, verify_password,
};
use vstd::prelude::*;
use vstd::string::StringSliceAdditionalSpecFns;

verus! {

/// The one message for a failed login, whether the user is unknown or the
/// password is wrong.
pub open spec fn login_failed(r: ApiError) -> bool {
    r matches ApiError::Custom(status, body) && status == BAD_REQUEST && body.message@
        == "User not found or incorrect password"@
}

/// The error for a login by an email that no user has.
pub fn unknown_login() -> (r: ApiError)
    ensures
        login_failed(r),
{
    custom("User not found or incorrect password", BAD_REQUEST)
}

/// Checks `password` against `stored`, the text form of a user's password
/// hash. A stored hash that cannot be read is a server error; a wrong
/// password is the login failure.
pub fn check_credentials(password: &str, stored: &str) -> (r: Result<(), ApiError>)
    ensures
        match parse_hash_spec(stored@) {
            Err(_) => r matches Err(e) && e is InternalServerError,
            Ok(h) => if password_matches(password.spec_bytes(), h) {
                r is Ok
            } else {
                r matches Err(e) && login_failed(e)
            },
        },
{
    let hash = match PasswordHash::from(stored) {
        Ok(h) => h,
        Err(e) => return Err(e.to_api_error()),
    };
    match verify_password(password, &hash) {
        Ok(()) => Ok(()),
        Err(_) => Err(unknown_login()),
    }
}

/// The registration `user` with its password replaced by the text form of
/// a fresh salted hash of it.
pub fn prepare_registration(user: UserCreate) -> (r: Result<UserCreate, ApiError>)
    ensures
        match r {
            Ok(u) => {
                &&& u.email@ == user.email@
                &&& u.display_name@ == user.display_name@
                &&& exists|h: PasswordHashView|
                    {
                        &&& h.iterations == ITERATIONS
                        &&& h.salt.len() == SALT_LEN
                        &&& h.hash == pbkdf2_hmac_sha512(
                            ITERATIONS,
                            h.salt,
                            vstd::utf8::encode_utf8(user.password@),
                            CREDENTIAL_LEN as nat,
                        )
                        &&& #[trigger] hash_text(h) == u.password@
                    }
            },
            Err(e) => e is InternalServerError,
        },
{
    let hash = match hash_password(user.password.as_str()) {
        Ok(h) => h,
        Err(e) => return Err(e.to_api_error()),
    };
    let text = hash.to_string();
    Ok(UserCreate { email: user.email, display_name: user.display_name, password: text })
}

} // verus!
