//! Errors of the event services (post handling and chain-change relay) and
//! how they are answered.

use vstd::prelude::*;
use vstd::string::*;
use crate::http_status::ResponseStatus;
use crate::text::{owned, decimal, u64_to_decimal};

verus! {

/// The `result` member of an answer body.
pub struct SuccessResponse {
    pub success: bool,
}

/// The body of an error answer: a failed result and the client-facing
/// error name.
pub struct ErrorPayloadResponse {
    pub result: SuccessResponse,
    pub error_message: String,
}

/// Why an event service refused or failed a request.
#[derive(PartialEq, Eq, Structural, Clone, Copy, Debug)]
pub enum Error {
    MissingParams,
    KafkaPublishingError,
    AuthFailNoAuthTokenCookie,
    AuthFailTokenWrongFormat,
    AuthFailCtxNotInRequestExt,
    TicketDeleteFailIdNotFound { id: u64 },
}

/// What a client is told about an error.
#[allow(non_camel_case_types)]
#[derive(PartialEq, Eq, Structural, Clone, Copy, Debug)]
pub enum ClientError {
    MISSING_PARAMS,
    KAFKA_PUBLISHING_ERROR,
    INVALID_PARAMS,
    SERVICE_ERROR,
}

impl ClientError {
    /// The variant's name, which is also its text in an answer body.
    pub open spec fn name(self) -> Seq<char> {
        match self {
            ClientError::MISSING_PARAMS => "MISSING_PARAMS"@,
            ClientError::KAFKA_PUBLISHING_ERROR => "KAFKA_PUBLISHING_ERROR"@,
            ClientError::INVALID_PARAMS => "INVALID_PARAMS"@,
            ClientError::SERVICE_ERROR => "SERVICE_ERROR"@,
        }
    }

    /// The variant's name.
    pub fn as_str(&self) -> (s: &'static str)
        ensures
            s@ == self.name(),
    {
        match self {
            ClientError::MISSING_PARAMS => "MISSING_PARAMS",
            ClientError::KAFKA_PUBLISHING_ERROR => "KAFKA_PUBLISHING_ERROR",
            ClientError::INVALID_PARAMS => "INVALID_PARAMS",
            ClientError::SERVICE_ERROR => "SERVICE_ERROR",
        }
    }
}

impl Error {
    /// The variant's name.
    pub open spec fn name(self) -> Seq<char> {
        match self {
            Error::MissingParams => "MissingParams"@,
            Error::KafkaPublishingError => "KafkaPublishingError"@,
            Error::AuthFailNoAuthTokenCookie => "AuthFailNoAuthTokenCookie"@,
            Error::AuthFailTokenWrongFormat => "AuthFailTokenWrongFormat"@,
            Error::AuthFailCtxNotInRequestExt => "AuthFailCtxNotInRequestExt"@,
            Error::TicketDeleteFailIdNotFound { .. } => "TicketDeleteFailIdNotFound"@,
        }
    }

    /// The variant's name.
    pub fn as_str(&self) -> (s: &'static str)
        ensures
            s@ == self.name(),
    {
        match self {
            Error::MissingParams => "MissingParams",
            Error::KafkaPublishingError => "KafkaPublishingError",
            Error::AuthFailNoAuthTokenCookie => "AuthFailNoAuthTokenCookie",
            Error::AuthFailTokenWrongFormat => "AuthFailTokenWrongFormat",
            Error::AuthFailCtxNotInRequestExt => "AuthFailCtxNotInRequestExt",
            Error::TicketDeleteFailIdNotFound { .. } => "TicketDeleteFailIdNotFound",
        }
    }

    /// The error as it is displayed: its debug form, the name followed by
    /// its fields in braces where it has any.
    pub open spec fn display(self) -> Seq<char> {
        match self {
            Error::TicketDeleteFailIdNotFound { id } =>
                "TicketDeleteFailIdNotFound { id: "@ + decimal(id as nat) + " }"@,
            _ => self.name(),
        }
    }

    /// Writes the error as it is displayed.
    pub fn to_string(&self) -> (s: String)
        ensures
            s@ == self.display(),
    {
        match self {
            Error::TicketDeleteFailIdNotFound { id } => {
                let mut s = owned("TicketDeleteFailIdNotFound { id: ");
                let digits = u64_to_decimal(*id);
                s.append(digits.as_str());
                s.append(" }");
                s
            },
            _ => owned(self.as_str()),
        }
    }

    /// The status and the client-facing error of each error.
    pub open spec fn client_mapping(self) -> (ResponseStatus, ClientError) {
        match self {
            Error::MissingParams => (ResponseStatus::BadRequest, ClientError::MISSING_PARAMS),
            Error::KafkaPublishingError =>
                (ResponseStatus::BadRequest, ClientError::KAFKA_PUBLISHING_ERROR),
            _ => (ResponseStatus::InternalServerError, ClientError::SERVICE_ERROR),
        }
    }

    pub fn client_status_and_error(&self) -> (r: (ResponseStatus, ClientError))
        ensures
            r == self.client_mapping(),
    {
        match self {
            Error::MissingParams => (ResponseStatus::BadRequest, ClientError::MISSING_PARAMS),
            Error::KafkaPublishingError =>
                (ResponseStatus::BadRequest, ClientError::KAFKA_PUBLISHING_ERROR),
            _ => (ResponseStatus::InternalServerError, ClientError::SERVICE_ERROR),
        }
    }

    /// The status and body with which the error is answered: the body reports
    /// a failed result and names the client-facing error.
    pub fn response_parts(&self) -> (r: (ResponseStatus, ErrorPayloadResponse))
        ensures
            r.0 == self.client_mapping().0,
            r.1.result.success == false,
            r.1.error_message@ == self.client_mapping().1.name(),
    {
        let (status, client) = self.client_status_and_error();
        let body = ErrorPayloadResponse {
            result: SuccessResponse { success: false },
            error_message: owned(client.as_str()),
        };
        (status, body)
    }
}

/// Only a missing parameter and a failed publication are the client's
/// concern (a bad request); every other error is answered as a service
/// error.
pub proof fn lemma_post_error_statuses(e: Error)
    ensures
        (e.client_mapping().0 == ResponseStatus::BadRequest) <==> (e is MissingParams
            || e is KafkaPublishingError),
        (e.client_mapping().0 == ResponseStatus::InternalServerError) <==> (e.client_mapping().1
            == ClientError::SERVICE_ERROR),
        e.client_mapping().0 != ResponseStatus::Forbidden,
{
}

} // verus!
