use reddit_offchain::db_error;
use reddit_offchain::http_status::ResponseStatus;
use reddit_offchain::post_error;
use reddit_offchain::db_error::{ClientError as DbClient, Error as DbError};
use reddit_offchain::post_error::{ClientError as PostClient, Error as PostError};

#[test]
fn db_errors_map_to_status_and_client_error() {
    let cases = [
        (DbError::DBFetchError, ResponseStatus::BadRequest, DbClient::DB_FETCH_ERROR),
        (DbError::RedisUpdateFailed, ResponseStatus::BadRequest, DbClient::REDIS_UPDATE_FAILED),
        (DbError::SomeErrorOccurred, ResponseStatus::BadRequest, DbClient::SOME_ERROR_OCCURRED),
        (DbError::MissingParams, ResponseStatus::BadRequest, DbClient::MISSING_PARAMS),
        (DbError::UnexpectedError, ResponseStatus::BadRequest, DbClient::UNEXPECTED_ERROR),
        (DbError::DBInsertError, ResponseStatus::BadRequest, DbClient::DB_INSERT_ERROR),
        (DbError::ErrorWhileFetchingUserFeed, ResponseStatus::BadRequest, DbClient::ERROR_WHILE_FETCHING_USER_FEED),
        (DbError::AuthFailNoAuthTokenCookie, ResponseStatus::Forbidden, DbClient::NO_AUTH),
        (DbError::AuthFailTokenWrongFormat, ResponseStatus::Forbidden, DbClient::NO_AUTH),
        (DbError::AuthFailCtxNotInRequestExt, ResponseStatus::Forbidden, DbClient::NO_AUTH),
        (DbError::TicketDeleteFailIdNotFound { id: 3 }, ResponseStatus::BadRequest, DbClient::INVALID_PARAMS),
    ];
    for (e, status, client) in cases {
        assert_eq!(e.client_status_and_error(), (status, client));
    }
}

#[test]
fn status_codes() {
    assert_eq!(ResponseStatus::BadRequest.code(), 400);
    assert_eq!(ResponseStatus::Forbidden.code(), 403);
    assert_eq!(ResponseStatus::InternalServerError.code(), 500);
}

#[test]
fn db_error_answer_body_names_the_client_error() {
    let (status, body) = db_error::Error::DBFetchError.response_parts();
    assert_eq!(status.code(), 400);
    assert!(!body.result.success);
    assert_eq!(body.error_message, "DB_FETCH_ERROR");
    let (status, body) = db_error::Error::AuthFailTokenWrongFormat.response_parts();
    assert_eq!(status.code(), 403);
    assert_eq!(body.error_message, "NO_AUTH");
}

#[test]
fn errors_display_as_their_debug_form() {
    assert_eq!(db_error::Error::MissingParams.to_string(), "MissingParams");
    assert_eq!(
        db_error::Error::TicketDeleteFailIdNotFound { id: 1024 }.to_string(),
        "TicketDeleteFailIdNotFound { id: 1024 }"
    );
    assert_eq!(
        format!("{:?}", db_error::Error::TicketDeleteFailIdNotFound { id: 0 }),
        db_error::Error::TicketDeleteFailIdNotFound { id: 0 }.to_string()
    );
    assert_eq!(
        post_error::Error::TicketDeleteFailIdNotFound { id: u64::MAX }.to_string(),
        "TicketDeleteFailIdNotFound { id: 18446744073709551615 }"
    );
    assert_eq!(post_error::Error::KafkaPublishingError.to_string(), "KafkaPublishingError");
}

#[test]
fn variant_names() {
    assert_eq!(db_error::Error::ErrorWhileFetchingUserFeed.as_str(), "ErrorWhileFetchingUserFeed");
    assert_eq!(db_error::ClientError::INVALID_EMAIL_USER_KEY.as_str(), "INVALID_EMAIL_USER_KEY");
    assert_eq!(post_error::ClientError::SERVICE_ERROR.as_str(), "SERVICE_ERROR");
    assert_eq!(format!("{:?}", db_error::ClientError::NO_AUTH), db_error::ClientError::NO_AUTH.as_str());
}

#[test]
fn post_errors_map_to_status_and_client_error() {
    assert_eq!(PostError::MissingParams.client_status_and_error(), (ResponseStatus::BadRequest, PostClient::MISSING_PARAMS));
    assert_eq!(
        PostError::KafkaPublishingError.client_status_and_error(),
        (ResponseStatus::BadRequest, PostClient::KAFKA_PUBLISHING_ERROR)
    );
    for e in [
        PostError::AuthFailNoAuthTokenCookie,
        PostError::AuthFailTokenWrongFormat,
        PostError::AuthFailCtxNotInRequestExt,
        PostError::TicketDeleteFailIdNotFound { id: 9 },
    ] {
        assert_eq!(e.client_status_and_error(), (ResponseStatus::InternalServerError, PostClient::SERVICE_ERROR));
    }
    let (status, body) = PostError::MissingParams.response_parts();
    assert_eq!(status.code(), 400);
    assert!(!body.result.success);
    assert_eq!(body.error_message, "MISSING_PARAMS");
}
