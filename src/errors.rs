use vstd::prelude::*;

verus! {

/// The status code of a request the client must fix.
pub const BAD_REQUEST: u16 = 400;

/// The status code of a request without a valid identity.
pub const UNAUTHORIZED: u16 = 401;

/// The status code of a request for something that does not exist.
pub const NOT_FOUND: u16 = 404;

/// The status code of a request whose body has the wrong shape.
pub const UNPROCESSABLE_ENTITY: u16 = 422;

/// The status code of a failure on the server's side.
pub const INTERNAL_SERVER_ERROR: u16 = 500;

/// The body of an error response.
#[derive(Debug)]
pub struct ErrorResponse {
    pub message: String,
}

/// A message for the client together with the status code it goes out with.
#[derive(Debug)]
pub struct CustomError {
    pub message: String,
    pub status: u16,
}

impl CustomError {
    /// An error with the given message and status code.
    pub fn new(message: String, status: u16) -> (r: Self)
        ensures
            r.message == message,
            r.status == status,
    {
        CustomError { message, status }
    }
}

/// The error that every public operation reports to its caller.
#[derive(Debug)]
pub enum ApiError {
    NotFound,
    InternalServerError,
    MissingEnvVars(Vec<String>),
    Custom(u16, ErrorResponse),
}

impl ApiError {
    /// The error that carries a custom message and status code.
    pub fn from_custom(e: CustomError) -> (r: Self)
        ensures
            r matches ApiError::Custom(status, body) && status == e.status && body.message
                == e.message,
    {
        ApiError::Custom(e.status, ErrorResponse { message: e.message })
    }

    /// The status code with which the error goes out.
    pub fn status(&self) -> (r: u16)
        ensures
            r == match self {
                ApiError::NotFound => NOT_FOUND,
                ApiError::Custom(status, _) => *status,
                _ => INTERNAL_SERVER_ERROR,
            },
    {
        match self {
            ApiError::NotFound => NOT_FOUND,
            ApiError::Custom(status, _) => *status,
            _ => INTERNAL_SERVER_ERROR,
        }
    }

    /// A short description of the kind of error.
    pub fn description(&self) -> (r: &'static str)
        ensures
            r@ == match self {
                ApiError::NotFound => "Record not found"@,
                ApiError::InternalServerError => "Internal server error"@,
                ApiError::MissingEnvVars(_) => "Missing environment variables"@,
                ApiError::Custom(_, _) => "Custom JSON error message"@,
            },
    {
        match self {
            ApiError::NotFound => "Record not found",
            ApiError::InternalServerError => "Internal server error",
            ApiError::MissingEnvVars(_) => "Missing environment variables",
            ApiError::Custom(_, _) => "Custom JSON error message",
        }
    }
}

/// A custom error with a literal message.
pub(crate) fn custom(message: &str, status: u16) -> (r: ApiError)
    ensures
        r matches ApiError::Custom(s, body) && s == status && body.message@ == message@,
{
    ApiError::from_custom(CustomError::new(message.to_string(), status))
}

/// The error sent for a request that lacks a valid identity.
pub fn unauthorized() -> (r: ApiError)
    ensures
        r matches ApiError::Custom(s, body) && s == UNAUTHORIZED && body.message@
            == "You may not access this resource"@,
{
    custom("You may not access this resource", UNAUTHORIZED)
}

/// The error sent for a route that does not exist.
pub fn not_found() -> (r: ApiError)
    ensures
        r matches ApiError::Custom(s, body) && s == NOT_FOUND && body.message@ == "Not found"@,
{
    custom("Not found", NOT_FOUND)
}

/// The error sent for a request body of the wrong shape.
pub fn unprocessable_entity() -> (r: ApiError)
    ensures
        r matches ApiError::Custom(s, body) && s == UNPROCESSABLE_ENTITY && body.message@
            == "Invalid data format, please follow the API spec"@,
{
    custom("Invalid data format, please follow the API spec", UNPROCESSABLE_ENTITY)
}

/// The error sent when the server fails.
pub fn server_error() -> (r: ApiError)
    ensures
        r matches ApiError::Custom(s, body) && s == INTERNAL_SERVER_ERROR && body.message@
            == "The server encountered an error processing your request"@,
{
    custom("The server encountered an error processing your request", INTERNAL_SERVER_ERROR)
}

} // verus!
