//! Layered error taxonomy: integration-level connector errors, transport
//! errors with one variant per observed HTTP status, persistence-layer
//! shapes the core must be able to wrap, and the top-level error with its
//! deterministic mapping onto a transport status code. Lower-layer errors
//! are lifted into exactly one variant of the next layer by an explicit,
//! lossless conversion; no layer discards the original cause.

use vstd::prelude::*;

verus! {

/// Marker for a failure while authenticating the caller.
#[derive(Debug, Clone, Copy, PartialEq, Eq, Structural)]
pub struct AuthenticationError;

/// Marker for a failure while authorising the caller.
#[derive(Debug, Clone, Copy, PartialEq, Eq, Structural)]
pub struct AuthorisationError;

/// Marker for a failure inside the encryption module.
#[derive(Debug, Clone, Copy, PartialEq, Eq, Structural)]
pub struct EncryptionError;

/// Marker for a failure while parsing.
#[derive(Debug, Clone, Copy, PartialEq, Eq, Structural)]
pub struct ParsingError;

/// Marker for a failure nothing else classifies.
#[derive(Debug, Clone, Copy, PartialEq, Eq, Structural)]
pub struct UnexpectedError;

/// Marker for a failed validation.
#[derive(Debug, Clone, Copy, PartialEq, Eq, Structural)]
pub struct ValidateError;

impl EncryptionError {
    /// Lifts the cryptography library's zero-information failure value
    /// into the encryption error kind.
    pub fn from_unspecified(err: ring::error::Unspecified) -> (r: EncryptionError)
        ensures
            r == EncryptionError,
    {
        let _ = err;
        EncryptionError
    }
}

/// Database-level failures, as the shape the core wraps and rethrows.
#[derive(Debug, PartialEq, Eq, Structural)]
pub enum DatabaseError {
    DatabaseConnectionError,
    NotFound,
    UniqueViolation,
    Others,
}

/// Storage-level failures, one layer above the database.
#[derive(Debug, PartialEq, Eq)]
pub enum StorageError {
    DatabaseError(DatabaseError),
    ValueNotFound(String),
    DuplicateValue(String),
    KVError,
}

impl StorageError {
    /// Lifts a database error into the storage layer, preserving it whole.
    pub fn from_database(err: DatabaseError) -> (r: StorageError)
        ensures
            r == StorageError::DatabaseError(err),
    {
        StorageError::DatabaseError(err)
    }
}

/// Redis-level failures, as the shape the core wraps and rethrows.
#[derive(Debug, PartialEq, Eq, Structural)]
pub enum RedisError {
    SetFailed,
    SetExFailed,
    SetExpiryFailed,
    GetFailed,
    DeleteFailed,
    StreamAppendFailed,
    StreamReadFailed,
    StreamDeleteFailed,
    StreamAcknowledgeFailed,
    ConsumerGroupCreateFailed,
    ConsumerGroupDestroyFailed,
    ConsumerGroupRemoveConsumerFailed,
    ConsumerGroupSetIdFailed,
    ConsumerGroupClaimFailed,
    JsonSerializationFailed,
    JsonDeserializationFailed,
}

/// Validation failures that name the field at fault.
#[derive(Debug, PartialEq, Eq)]
pub enum ValidationError {
    MissingRequiredField { field_name: String },
    IncorrectValueProvided { field_name: &'static str },
}

/// Failures of the webhook delivery flow.
#[derive(Debug, PartialEq, Eq, Structural)]
pub enum WebhooksFlowError {
    MerchantConfigNotFound,
    MerchantWebhookDetailsNotFound,
    MerchantWebhookURLNotConfigured,
    PaymentsCoreFailed,
    WebhookEventCreationFailed,
    ForkFlowFailed,
    CallToMerchantFailed,
    NotReceivedByMerchant,
}

/// Failures of cryptographic operations.
#[derive(Debug, PartialEq, Eq, Structural)]
pub enum CryptoError {
    EncodingFailed,
    DecodingFailed,
    MessageSigningFailed,
    SignatureVerificationFailed,
}

/// Integration-level errors raised while translating between the domain
/// model and one connector's wire dialect.
#[derive(Debug, PartialEq, Eq)]
pub enum ConnectorError {
    FailedToObtainIntegrationUrl,
    RequestEncodingFailed,
    ResponseDeserializationFailed,
    ProcessingStepFailed(Option<bytes::Bytes>),
    UnexpectedResponseError(bytes::Bytes),
    RoutingRulesParsingError,
    FailedToObtainPreferredConnector,
    InvalidConnectorName,
    ResponseHandlingFailed,
    MissingRequiredField { field_name: String },
    FailedToObtainAuthType,
    NotImplemented(String),
    WebhooksNotImplemented,
    WebhookBodyDecodingFailed,
    WebhookSignatureNotFound,
    WebhookSourceVerificationFailed,
    WebhookVerificationSecretNotFound,
    WebhookReferenceIdNotFound,
    WebhookEventTypeNotFound,
    WebhookResourceObjectNotFound,
}

/// Transport-level errors: client construction, encoding, and one variant
/// per HTTP status the transport has been observed to return, some carrying
/// the raw response body for diagnostics.
#[derive(Debug, PartialEq, Eq)]
pub enum ApiClientError {
    HeaderMapConstructionFailed,
    InvalidProxyConfiguration,
    ClientConstructionFailed,
    UrlEncodingFailed,
    RequestNotSent,
    ResponseDecodingFailed,
    BadRequestReceived(bytes::Bytes),
    UnauthorizedReceived(bytes::Bytes),
    ForbiddenReceived,
    NotFoundReceived(bytes::Bytes),
    MethodNotAllowedReceived,
    RequestTimeoutReceived,
    UnprocessableEntityReceived(bytes::Bytes),
    TooManyRequestsReceived,
    InternalServerErrorReceived,
    BadGatewayReceived,
    ServiceUnavailableReceived,
    GatewayTimeoutReceived,
    UnexpectedServerResponse,
}

/// The transport error owed for each non-success HTTP status: the observed
/// 4xx statuses each have their own variant, the observed 5xx statuses
/// likewise, and anything else is an unexpected server response.
pub open spec fn spec_api_error_for_status(status: u16, body: bytes::Bytes) -> ApiClientError {
    if status == 400 {
        ApiClientError::BadRequestReceived(body)
    } else if status == 401 {
        ApiClientError::UnauthorizedReceived(body)
    } else if status == 403 {
        ApiClientError::ForbiddenReceived
    } else if status == 404 {
        ApiClientError::NotFoundReceived(body)
    } else if status == 405 {
        ApiClientError::MethodNotAllowedReceived
    } else if status == 408 {
        ApiClientError::RequestTimeoutReceived
    } else if status == 422 {
        ApiClientError::UnprocessableEntityReceived(body)
    } else if status == 429 {
        ApiClientError::TooManyRequestsReceived
    } else if status == 500 {
        ApiClientError::InternalServerErrorReceived
    } else if status == 502 {
        ApiClientError::BadGatewayReceived
    } else if status == 503 {
        ApiClientError::ServiceUnavailableReceived
    } else if status == 504 {
        ApiClientError::GatewayTimeoutReceived
    } else {
        ApiClientError::UnexpectedServerResponse
    }
}

/// Classifies a non-success transport status into the transport error that
/// preserves the raw body where the variant carries one.
pub fn api_error_for_status(status: u16, body: bytes::Bytes) -> (r: ApiClientError)
    requires
        !(200 <= status < 300),
    ensures
        r == spec_api_error_for_status(status, body),
{
    if status == 400 {
        ApiClientError::BadRequestReceived(body)
    } else if status == 401 {
        ApiClientError::UnauthorizedReceived(body)
    } else if status == 403 {
        ApiClientError::ForbiddenReceived
    } else if status == 404 {
        ApiClientError::NotFoundReceived(body)
    } else if status == 405 {
        ApiClientError::MethodNotAllowedReceived
    } else if status == 408 {
        ApiClientError::RequestTimeoutReceived
    } else if status == 422 {
        ApiClientError::UnprocessableEntityReceived(body)
    } else if status == 429 {
        ApiClientError::TooManyRequestsReceived
    } else if status == 500 {
        ApiClientError::InternalServerErrorReceived
    } else if status == 502 {
        ApiClientError::BadGatewayReceived
    } else if status == 503 {
        ApiClientError::ServiceUnavailableReceived
    } else if status == 504 {
        ApiClientError::GatewayTimeoutReceived
    } else {
        ApiClientError::UnexpectedServerResponse
    }
}

/// Card-vault failures, as the shape the core wraps and rethrows.
#[derive(Debug, PartialEq, Eq)]
pub enum CardVaultError {
    SaveCardFailed,
    FetchCardFailed,
    RequestEncodingFailed,
    ResponseDeserializationFailed,
    PaymentMethodCreationFailed,
    MissingRequiredField { field_name: String },
    UnexpectedResponseError(bytes::Bytes),
}

/// Failures of the process tracker that schedules asynchronous work; the
/// wrapping variants preserve the lower-layer error whole.
#[derive(Debug, PartialEq, Eq)]
pub enum ProcessTrackerError {
    UnexpectedFlow,
    SerializationFailed,
    DeserializationFailed,
    MissingRequiredField,
    BatchInsertionFailed,
    ProcessInsertionFailed,
    BatchNotFound,
    BatchUpdateFailed,
    BatchDeleteFailed,
    ConfigurationError,
    ProcessUpdateFailed,
    ProcessFetchingFailed,
    ResourceFetchingFailed { resource_name: String },
    FlowExecutionError { flow: String },
    NotImplemented,
    EStorageError(StorageError),
    ERedisError(RedisError),
    EParsingError(ParsingError),
    EValidationError(ValidationError),
}

impl ProcessTrackerError {
    /// Lifts a storage error into the process-tracker layer, whole.
    pub fn from_storage(err: StorageError) -> (r: ProcessTrackerError)
        ensures
            r == ProcessTrackerError::EStorageError(err),
    {
        ProcessTrackerError::EStorageError(err)
    }

    /// Lifts a Redis error into the process-tracker layer, whole.
    pub fn from_redis(err: RedisError) -> (r: ProcessTrackerError)
        ensures
            r == ProcessTrackerError::ERedisError(err),
    {
        ProcessTrackerError::ERedisError(err)
    }

    /// Lifts a parsing error into the process-tracker layer, whole.
    pub fn from_parsing(err: ParsingError) -> (r: ProcessTrackerError)
        ensures
            r == ProcessTrackerError::EParsingError(err),
    {
        ProcessTrackerError::EParsingError(err)
    }

    /// Lifts a validation error into the process-tracker layer, whole.
    pub fn from_validation(err: ValidationError) -> (r: ProcessTrackerError)
        ensures
            r == ProcessTrackerError::EValidationError(err),
    {
        ProcessTrackerError::EValidationError(err)
    }
}

/// The top-level, externally visible error of the router.
#[derive(Debug)]
pub enum BachError {
    EAuthenticationError(AuthenticationError),
    EAuthorisationError(AuthorisationError),
    NotImplementedByConnector(String),
    EUnexpectedError(UnexpectedError),
    EParsingError(ParsingError),
    ConfigurationError(config::ConfigError),
    EValidationError(ValidateError),
    EDatabaseError(DatabaseError),
    EEncryptionError(EncryptionError),
    EMetrics(String),
    EIo(std::io::Error),
}

/// The client-caused kinds: exactly those the transport edge answers with
/// a client error status; every other kind is a server-side failure.
pub open spec fn spec_is_client_error(e: BachError) -> bool {
    ||| e matches BachError::EParsingError(_)
    ||| e matches BachError::EAuthenticationError(_)
    ||| e matches BachError::EAuthorisationError(_)
    ||| e matches BachError::EValidationError(_)
}

impl BachError {
    /// Deterministic mapping onto a transport status code: client-caused
    /// kinds map to 400, everything else to 500; no kind escapes the
    /// dichotomy.
    pub fn status_code(&self) -> (code: u16)
        ensures
            code == 400 <==> spec_is_client_error(*self),
            code == 400 || code == 500,
    {
        match self {
            BachError::EParsingError(_)
            | BachError::EAuthenticationError(_)
            | BachError::EAuthorisationError(_)
            | BachError::EValidationError(_) => 400,
            BachError::EDatabaseError(_)
            | BachError::NotImplementedByConnector(_)
            | BachError::EMetrics(_)
            | BachError::EIo(_)
            | BachError::ConfigurationError(_)
            | BachError::EEncryptionError(_)
            | BachError::EUnexpectedError(_) => 500,
        }
    }

    /// Lifts an authentication error into the top layer, whole.
    pub fn from_authentication(err: AuthenticationError) -> (r: BachError)
        ensures
            r == BachError::EAuthenticationError(err),
    {
        BachError::EAuthenticationError(err)
    }

    /// Lifts an authorisation error into the top layer, whole.
    pub fn from_authorisation(err: AuthorisationError) -> (r: BachError)
        ensures
            r == BachError::EAuthorisationError(err),
    {
        BachError::EAuthorisationError(err)
    }

    /// Lifts an unexpected error into the top layer, whole.
    pub fn from_unexpected(err: UnexpectedError) -> (r: BachError)
        ensures
            r == BachError::EUnexpectedError(err),
    {
        BachError::EUnexpectedError(err)
    }

    /// Lifts a parsing error into the top layer, whole.
    pub fn from_parsing(err: ParsingError) -> (r: BachError)
        ensures
            r == BachError::EParsingError(err),
    {
        BachError::EParsingError(err)
    }

    /// Lifts a validation error into the top layer, whole.
    pub fn from_validation(err: ValidateError) -> (r: BachError)
        ensures
            r == BachError::EValidationError(err),
    {
        BachError::EValidationError(err)
    }

    /// Lifts a database error into the top layer, whole.
    pub fn from_database(err: DatabaseError) -> (r: BachError)
        ensures
            r == BachError::EDatabaseError(err),
    {
        BachError::EDatabaseError(err)
    }

    /// Lifts an encryption error into the top layer, whole.
    pub fn from_encryption(err: EncryptionError) -> (r: BachError)
        ensures
            r == BachError::EEncryptionError(err),
    {
        BachError::EEncryptionError(err)
    }

    /// Lifts a metrics failure, by its message, into the top layer.
    pub fn from_metrics(message: String) -> (r: BachError)
        ensures
            r == BachError::EMetrics(message),
    {
        BachError::EMetrics(message)
    }

    /// Lifts an I/O error into the top layer, whole.
    pub fn from_io(err: std::io::Error) -> (r: BachError)
        ensures
            r == BachError::EIo(err),
    {
        BachError::EIo(err)
    }

    /// Lifts a configuration error into the top layer, whole.
    pub fn from_config(err: config::ConfigError) -> (r: BachError)
        ensures
            r == BachError::ConfigurationError(err),
    {
        BachError::ConfigurationError(err)
    }
}

} // verus!
