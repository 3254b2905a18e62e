//! Errors as clients of the API see them.
use vstd::prelude::*;

verus! {

/// `anyhow::Error`, an error of any kind.
#[verifier::external_type_specification]
#[verifier::external_body]
pub struct ExAnyhowError(anyhow::Error);

/// `firecracker_rs_sdk::Error`, a failed request to Firecracker.
#[verifier::external_type_specification]
#[verifier::external_body]
pub struct ExSdkError(firecracker_rs_sdk::Error);

/// A refused or failed request: its HTTP status and the message for the client.
#[derive(Debug)]
pub struct ApiError {
    pub status: u16,
    pub message: String,
}

/// The body of an error response.
#[derive(Debug)]
pub struct ErrorBody {
    pub error: String,
}

impl ApiError {
    /// Whether the error has this status and this message.
    pub open spec fn says(self, status: u16, message: Seq<char>) -> bool {
        self.status == status && self.message@ == message
    }

    /// The answer to every failure that is not the client's: the client learns nothing of it.
    pub open spec fn is_internal(self) -> bool {
        self.says(500, "Internal server error"@)
    }

    /// Creates an API error with the given status code and message.
    pub fn new(status: u16, message: &str) -> (r: ApiError)
        ensures
            r.says(status, message@),
    {
        ApiError { status, message: message.to_string() }
    }

    /// Convenience constructor for 500 Internal Server Error.
    pub fn internal(message: &str) -> (r: ApiError)
        ensures
            r.says(500, message@),
    {
        ApiError::new(500, message)
    }

    /// Convenience constructor for 404 Not Found.
    pub fn not_found(message: &str) -> (r: ApiError)
        ensures
            r.says(404, message@),
    {
        ApiError::new(404, message)
    }

    /// Convenience constructor for 409 Conflict.
    pub fn conflict(message: &str) -> (r: ApiError)
        ensures
            r.says(409, message@),
    {
        ApiError::new(409, message)
    }

    /// Convenience constructor for 422 Unprocessable Entity.
    pub fn unprocessable(message: &str) -> (r: ApiError)
        ensures
            r.says(422, message@),
    {
        ApiError::new(422, message)
    }

    /// The status and body of the response: the message stands under `error`.
    pub fn into_response(self) -> (r: (u16, ErrorBody))
        ensures
            r.0 == self.status,
            r.1.error@ == self.message@,
    {
        (self.status, ErrorBody { error: self.message })
    }
}

impl vstd::std_specs::convert::FromSpecImpl<anyhow::Error> for ApiError {
    open spec fn obeys_from_spec() -> bool {
        false
    }

    open spec fn from_spec(e: anyhow::Error) -> ApiError {
        arbitrary()
    }
}

impl From<anyhow::Error> for ApiError {
    fn from(e: anyhow::Error) -> (r: ApiError)
        ensures
            r.is_internal(),
    {
        ApiError::internal("Internal server error")
    }
}

impl vstd::std_specs::convert::FromSpecImpl<firecracker_rs_sdk::Error> for ApiError {
    open spec fn obeys_from_spec() -> bool {
        false
    }

    open spec fn from_spec(e: firecracker_rs_sdk::Error) -> ApiError {
        arbitrary()
    }
}

impl From<firecracker_rs_sdk::Error> for ApiError {
    fn from(e: firecracker_rs_sdk::Error) -> (r: ApiError)
        ensures
            r.is_internal(),
    {
        ApiError::internal("Internal server error")
    }
}

/// An error carries its status and its message as they were given, and answers with both.
pub proof fn errors_carry_what_was_given(
    message: &str,
    status: u16,
    any: ApiError,
    internal: ApiError,
    not_found: ApiError,
    conflict: ApiError,
    unprocessable: ApiError,
    e: ApiError,
    response: (u16, ErrorBody),
)
    requires
        call_ensures(ApiError::new, (status, message), any),
        call_ensures(ApiError::internal, (message,), internal),
        call_ensures(ApiError::not_found, (message,), not_found),
        call_ensures(ApiError::conflict, (message,), conflict),
        call_ensures(ApiError::unprocessable, (message,), unprocessable),
        call_ensures(ApiError::into_response, (e,), response),
    ensures
        any.status == status && any.message@ == message@,
        internal.status == 500 && internal.message@ == message@,
        not_found.status == 404 && not_found.message@ == message@,
        conflict.status == 409 && conflict.message@ == message@,
        unprocessable.status == 422 && unprocessable.message@ == message@,
        response.0 == e.status && response.1.error@ == e.message@,
{
}

/// What an error says is its status and its message; an internal error says no more than that.
pub proof fn errors_say_status_and_message(e: ApiError, status: u16, message: Seq<char>)
    ensures
        e.says(status, message) <==> e.status == status && e.message@ == message,
        e.is_internal() <==> e.status == 500 && e.message@ == "Internal server error"@,
{
}

/// Whatever fails beyond the client's doing, the client is told the same.
pub proof fn failures_are_hidden(
    e: anyhow::Error,
    f: firecracker_rs_sdk::Error,
    a: ApiError,
    b: ApiError,
)
    requires
        call_ensures(<ApiError as From<anyhow::Error>>::from, (e,), a),
        call_ensures(<ApiError as From<firecracker_rs_sdk::Error>>::from, (f,), b),
    ensures
        a.status == 500 && a.message@ == "Internal server error"@,
        b.status == 500 && b.message@ == "Internal server error"@,
{
}

} // verus!
