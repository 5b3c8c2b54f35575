//! Errors of the database service and how they are answered.

use vstd::prelude::*;
use vstd::string::*;
use crate::http_status::ResponseStatus;
use crate::text::{owned, concat2, decimal, u64_to_decimal};

verus! {

/// The `result` member of an answer body.
pub struct SuccessResponse {
    pub success: bool,
}

/// The body of an error answer: a failed result and the client-facing
/// error name.
pub struct ErrorPayloadResponse {
    pub result: SuccessResponse,
    pub error_message: String,
}

/// Why the database service refused or failed a request.
#[derive(PartialEq, Eq, Structural, Clone, Copy, Debug)]
pub enum Error {
    SomeErrorOccurred,
    MissingParams,
    UnexpectedError,
    AuthFailNoAuthTokenCookie,
    AuthFailTokenWrongFormat,
    AuthFailCtxNotInRequestExt,
    ErrorWhileFetchingUserFeed,
    RedisUpdateFailed,
    DBInsertError,
    DBFetchError,
    TicketDeleteFailIdNotFound { id: u64 },
}

/// What a client is told about an error.
#[allow(non_camel_case_types)]
#[derive(PartialEq, Eq, Structural, Clone, Copy, Debug)]
pub enum ClientError {
    MISSING_PARAMS,
    SOME_ERROR_OCCURRED,
    REDIS_UPDATE_FAILED,
    UNEXPECTED_ERROR,
    ERROR_WHILE_FETCHING_USER_FEED,
    DB_INSERT_ERROR,
    NO_AUTH,
    INVALID_PARAMS,
    SERVICE_ERROR,
    INVALID_EMAIL_USER_KEY,
    DB_FETCH_ERROR,
}

impl ClientError {
    /// The variant's name, which is also its text in an answer body.
    pub open spec fn name(self) -> Seq<char> {
        match self {
            ClientError::MISSING_PARAMS => "MISSING_PARAMS"@,
            ClientError::SOME_ERROR_OCCURRED => "SOME_ERROR_OCCURRED"@,
            ClientError::REDIS_UPDATE_FAILED => "REDIS_UPDATE_FAILED"@,
            ClientError::UNEXPECTED_ERROR => "UNEXPECTED_ERROR"@,
            ClientError::ERROR_WHILE_FETCHING_USER_FEED => "ERROR_WHILE_FETCHING_USER_FEED"@,
            ClientError::DB_INSERT_ERROR => "DB_INSERT_ERROR"@,
            ClientError::NO_AUTH => "NO_AUTH"@,
            ClientError::INVALID_PARAMS => "INVALID_PARAMS"@,
            ClientError::SERVICE_ERROR => "SERVICE_ERROR"@,
            ClientError::INVALID_EMAIL_USER_KEY => "INVALID_EMAIL_USER_KEY"@,
            ClientError::DB_FETCH_ERROR => "DB_FETCH_ERROR"@,
        }
    }

    /// The variant's name.
    pub fn as_str(&self) -> (s: &'static str)
        ensures
            s@ == self.name(),
    {
        match self {
            ClientError::MISSING_PARAMS => "MISSING_PARAMS",
            ClientError::SOME_ERROR_OCCURRED => "SOME_ERROR_OCCURRED",
            ClientError::REDIS_UPDATE_FAILED => "REDIS_UPDATE_FAILED",
            ClientError::UNEXPECTED_ERROR => "UNEXPECTED_ERROR",
            ClientError::ERROR_WHILE_FETCHING_USER_FEED => "ERROR_WHILE_FETCHING_USER_FEED",
            ClientError::DB_INSERT_ERROR => "DB_INSERT_ERROR",
            ClientError::NO_AUTH => "NO_AUTH",
            ClientError::INVALID_PARAMS => "INVALID_PARAMS",
            ClientError::SERVICE_ERROR => "SERVICE_ERROR",
            ClientError::INVALID_EMAIL_USER_KEY => "INVALID_EMAIL_USER_KEY",
            ClientError::DB_FETCH_ERROR => "DB_FETCH_ERROR",
        }
    }
}

impl Error {
    /// The variant's name.
    pub open spec fn name(self) -> Seq<char> {
        match self {
            Error::SomeErrorOccurred => "SomeErrorOccurred"@,
            Error::MissingParams => "MissingParams"@,
            Error::UnexpectedError => "UnexpectedError"@,
            Error::AuthFailNoAuthTokenCookie => "AuthFailNoAuthTokenCookie"@,
            Error::AuthFailTokenWrongFormat => "AuthFailTokenWrongFormat"@,
            Error::AuthFailCtxNotInRequestExt => "AuthFailCtxNotInRequestExt"@,
            Error::ErrorWhileFetchingUserFeed => "ErrorWhileFetchingUserFeed"@,
            Error::RedisUpdateFailed => "RedisUpdateFailed"@,
            Error::DBInsertError => "DBInsertError"@,
            Error::DBFetchError => "DBFetchError"@,
            Error::TicketDeleteFailIdNotFound { .. } => "TicketDeleteFailIdNotFound"@,
        }
    }

    /// The variant's name.
    pub fn as_str(&self) -> (s: &'static str)
        ensures
            s@ == self.name(),
    {
        match self {
            Error::SomeErrorOccurred => "SomeErrorOccurred",
            Error::MissingParams => "MissingParams",
            Error::UnexpectedError => "UnexpectedError",
            Error::AuthFailNoAuthTokenCookie => "AuthFailNoAuthTokenCookie",
            Error::AuthFailTokenWrongFormat => "AuthFailTokenWrongFormat",
            Error::AuthFailCtxNotInRequestExt => "AuthFailCtxNotInRequestExt",
            Error::ErrorWhileFetchingUserFeed => "ErrorWhileFetchingUserFeed",
            Error::RedisUpdateFailed => "RedisUpdateFailed",
            Error::DBInsertError => "DBInsertError",
            Error::DBFetchError => "DBFetchError",
            Error::TicketDeleteFailIdNotFound { .. } => "TicketDeleteFailIdNotFound",
        }
    }

    /// The error as it is displayed: its debug form, the name followed by
    /// its fields in braces where it has any.
    pub open spec fn display(self) -> Seq<char> {
        match self {
            Error::TicketDeleteFailIdNotFound { id } =>
                "TicketDeleteFailIdNotFound { id: "@ + decimal(id as nat) + " }"@,
            _ => self.name(),
        }
    }

    /// Writes the error as it is displayed.
    pub fn to_string(&self) -> (s: String)
        ensures
            s@ == self.display(),
    {
        match self {
            Error::TicketDeleteFailIdNotFound { id } => {
                let mut s = owned("TicketDeleteFailIdNotFound { id: ");
                let digits = u64_to_decimal(*id);
                s.append(digits.as_str());
                s.append(" }");
                s
            },
            _ => owned(self.as_str()),
        }
    }

    /// The status and the client-facing error of each error.
    pub open spec fn client_mapping(self) -> (ResponseStatus, ClientError) {
        match self {
            Error::DBFetchError => (ResponseStatus::BadRequest, ClientError::DB_FETCH_ERROR),
            Error::RedisUpdateFailed => (ResponseStatus::BadRequest, ClientError::REDIS_UPDATE_FAILED),
            Error::SomeErrorOccurred => (ResponseStatus::BadRequest, ClientError::SOME_ERROR_OCCURRED),
            Error::MissingParams => (ResponseStatus::BadRequest, ClientError::MISSING_PARAMS),
            Error::UnexpectedError => (ResponseStatus::BadRequest, ClientError::UNEXPECTED_ERROR),
            Error::DBInsertError => (ResponseStatus::BadRequest, ClientError::DB_INSERT_ERROR),
            Error::ErrorWhileFetchingUserFeed =>
                (ResponseStatus::BadRequest, ClientError::ERROR_WHILE_FETCHING_USER_FEED),
            Error::AuthFailNoAuthTokenCookie
            | Error::AuthFailTokenWrongFormat
            | Error::AuthFailCtxNotInRequestExt => (ResponseStatus::Forbidden, ClientError::NO_AUTH),
            Error::TicketDeleteFailIdNotFound { .. } =>
                (ResponseStatus::BadRequest, ClientError::INVALID_PARAMS),
        }
    }

    pub fn client_status_and_error(&self) -> (r: (ResponseStatus, ClientError))
        ensures
            r == self.client_mapping(),
    {
        match self {
            Error::DBFetchError => (ResponseStatus::BadRequest, ClientError::DB_FETCH_ERROR),
            Error::RedisUpdateFailed => (ResponseStatus::BadRequest, ClientError::REDIS_UPDATE_FAILED),
            Error::SomeErrorOccurred => (ResponseStatus::BadRequest, ClientError::SOME_ERROR_OCCURRED),
            Error::MissingParams => (ResponseStatus::BadRequest, ClientError::MISSING_PARAMS),
            Error::UnexpectedError => (ResponseStatus::BadRequest, ClientError::UNEXPECTED_ERROR),
            Error::DBInsertError => (ResponseStatus::BadRequest, ClientError::DB_INSERT_ERROR),
            Error::ErrorWhileFetchingUserFeed =>
                (ResponseStatus::BadRequest, ClientError::ERROR_WHILE_FETCHING_USER_FEED),
            Error::AuthFailNoAuthTokenCookie
            | Error::AuthFailTokenWrongFormat
            | Error::AuthFailCtxNotInRequestExt => (ResponseStatus::Forbidden, ClientError::NO_AUTH),
            Error::TicketDeleteFailIdNotFound { .. } =>
                (ResponseStatus::BadRequest, ClientError::INVALID_PARAMS),
        }
    }

    /// The status and body with which the error is answered: the body reports
    /// a failed result and names the client-facing error.
    pub fn response_parts(&self) -> (r: (ResponseStatus, ErrorPayloadResponse))
        ensures
            r.0 == self.client_mapping().0,
            r.1.result.success == false,
            r.1.error_message@ == self.client_mapping().1.name(),
    {
        let (status, client) = self.client_status_and_error();
        let body = ErrorPayloadResponse {
            result: SuccessResponse { success: false },
            error_message: owned(client.as_str()),
        };
        (status, body)
    }
}

/// Each failure is reported under its own client error: a failed fetch as
/// `DB_FETCH_ERROR`, a failed cache update as `REDIS_UPDATE_FAILED`, a
/// missing parameter as `MISSING_PARAMS`, a failed insert as
/// `DB_INSERT_ERROR`, a failed feed as `ERROR_WHILE_FETCHING_USER_FEED`, an
/// unexpected failure as `UNEXPECTED_ERROR`, any other as
/// `SOME_ERROR_OCCURRED`; authentication failures as `NO_AUTH`, and an
/// unknown id as `INVALID_PARAMS`.
pub proof fn lemma_db_errors_reported_by_name(id: u64)
    ensures
        Error::DBFetchError.client_mapping().1 == ClientError::DB_FETCH_ERROR,
        Error::RedisUpdateFailed.client_mapping().1 == ClientError::REDIS_UPDATE_FAILED,
        Error::MissingParams.client_mapping().1 == ClientError::MISSING_PARAMS,
        Error::DBInsertError.client_mapping().1 == ClientError::DB_INSERT_ERROR,
        Error::ErrorWhileFetchingUserFeed.client_mapping().1 == ClientError::ERROR_WHILE_FETCHING_USER_FEED,
        Error::UnexpectedError.client_mapping().1 == ClientError::UNEXPECTED_ERROR,
        Error::SomeErrorOccurred.client_mapping().1 == ClientError::SOME_ERROR_OCCURRED,
        Error::AuthFailNoAuthTokenCookie.client_mapping().1 == ClientError::NO_AUTH,
        Error::AuthFailTokenWrongFormat.client_mapping().1 == ClientError::NO_AUTH,
        Error::AuthFailCtxNotInRequestExt.client_mapping().1 == ClientError::NO_AUTH,
        (Error::TicketDeleteFailIdNotFound { id }).client_mapping().1 == ClientError::INVALID_PARAMS,
{
}

/// No error of the database service is answered as a server failure: each
/// is a client error, and exactly the authentication failures are
/// answered as forbidden.
pub proof fn lemma_db_errors_are_client_errors(e: Error)
    ensures
        e.client_mapping().0 != ResponseStatus::InternalServerError,
        (e.client_mapping().0 == ResponseStatus::Forbidden) <==> (e is AuthFailNoAuthTokenCookie
            || e is AuthFailTokenWrongFormat || e is AuthFailCtxNotInRequestExt),
        (e.client_mapping().1 == ClientError::NO_AUTH) <==> (e.client_mapping().0
            == ResponseStatus::Forbidden),
{
}

} // verus!
