//! The rules that turn each upstream failure into a [`ServiceError`].
//!
//! Detail that is safe to show (a constraint's description) survives into
//! `BadRequest`; server-side and authentication failures only ever carry
//! fixed text.
use vstd::prelude::*;

use crate::service_error::{body_of, render, status_of, ServiceError, ServiceErrorView, StatusCategory};
use crate::upstream::{data_store_failure_model, data_store_failure_of, jwt_error_kind, DataStoreFailure};
use diesel::result::DatabaseErrorKind;
use jsonwebtoken::errors::ErrorKind as JwtErrorKind;

verus! {

/// A failure from any one of the upstream subsystems.
#[derive(Debug)]
pub enum UpstreamFailure {
    DataStore(DataStoreFailure),
    /// A connection could not be taken from the pool; all such failures are
    /// treated alike.
    Pool,
    Token(jsonwebtoken::errors::ErrorKind),
    Messaging(actix::MailboxError),
    Encoder(harsh::Error),
}

/// Data store: a uniqueness violation is the caller's fault and keeps the
/// database's detail text (or, without one, its message); a missing record
/// is reported with a fixed message; everything else is a server error.
pub open spec fn data_store_rule(f: DataStoreFailure) -> ServiceErrorView {
    match f {
        DataStoreFailure::Database { kind, detail, message } => {
            if kind == DatabaseErrorKind::UniqueViolation {
                ServiceErrorView::BadRequest(
                    match detail {
                        Some(d) => d@,
                        None => message@,
                    },
                )
            } else {
                ServiceErrorView::InternalServerError("database"@)
            }
        },
        DataStoreFailure::NotFound => ServiceErrorView::NotFound("requested record was not found"@),
        DataStoreFailure::InvalidCString
        | DataStoreFailure::QueryBuilder
        | DataStoreFailure::Deserialization
        | DataStoreFailure::Serialization
        | DataStoreFailure::RollbackErrorOnCommit
        | DataStoreFailure::RollbackTransaction
        | DataStoreFailure::AlreadyInTransaction
        | DataStoreFailure::NotInTransaction
        | DataStoreFailure::BrokenTransactionManager
        | DataStoreFailure::IntegerConversion
        | DataStoreFailure::Unknown => ServiceErrorView::InternalServerError("database"@),
    }
}

/// Pool: every failure to obtain a connection is a server error.
pub open spec fn pool_rule() -> ServiceErrorView {
    ServiceErrorView::InternalServerError("pool"@)
}

/// Token: a malformed token or a wrong issuer is the caller's fault, with a
/// message naming which; any other refusal is `Unauthorized`, without detail.
pub open spec fn token_rule(k: JwtErrorKind) -> ServiceErrorView {
    match k {
        JwtErrorKind::InvalidToken => ServiceErrorView::BadRequest("Invalid Token"@),
        JwtErrorKind::InvalidIssuer => ServiceErrorView::BadRequest("Invalid Issuer"@),
        _ => ServiceErrorView::Unauthorized,
    }
}

/// Messaging: every delivery failure is a server error; its cause is dropped.
pub open spec fn messaging_rule(f: actix::MailboxError) -> ServiceErrorView {
    ServiceErrorView::InternalServerError("mailbox"@)
}

/// Id encoder: each kind of failure is a server error with a tag of its own.
pub open spec fn encoder_rule(f: harsh::Error) -> ServiceErrorView {
    match f {
        harsh::Error::AlphabetLength => ServiceErrorView::InternalServerError(
            "harsh AlphabetLength error"@,
        ),
        harsh::Error::IllegalCharacter(_) => ServiceErrorView::InternalServerError(
            "harsh IllegalCharacter error"@,
        ),
        harsh::Error::Separator => ServiceErrorView::InternalServerError("harsh Separator error"@),
    }
}

/// The translation of any upstream failure.
pub open spec fn translation(f: UpstreamFailure) -> ServiceErrorView {
    match f {
        UpstreamFailure::DataStore(d) => data_store_rule(d),
        UpstreamFailure::Pool => pool_rule(),
        UpstreamFailure::Token(t) => token_rule(t),
        UpstreamFailure::Messaging(m) => messaging_rule(m),
        UpstreamFailure::Encoder(e) => encoder_rule(e),
    }
}

/// The fixed texts that server errors may carry.
pub open spec fn is_server_tag(s: Seq<char>) -> bool {
    ||| s == "database"@
    ||| s == "pool"@
    ||| s == "mailbox"@
    ||| s == "harsh AlphabetLength error"@
    ||| s == "harsh IllegalCharacter error"@
    ||| s == "harsh Separator error"@
}

/// Translating and then rendering is total and deterministic: every upstream
/// failure yields a response whose status is that of its error's category and
/// whose body is that error's text, and equal failures yield identical
/// responses, status and body alike.
pub proof fn lemma_render_translation_deterministic(x: UpstreamFailure, y: UpstreamFailure)
    requires
        x == y,
    ensures
        render(translation(x)) == render(translation(y)),
        render(translation(x)).status == status_of(translation(x)),
        render(translation(x)).body == body_of(translation(x)),
{
}

/// No upstream text reaches the caller through a server error or an
/// authentication failure: the former carries one of the fixed tags, the
/// latter the fixed text "Unauthorized".
pub proof fn lemma_no_disclosure_beyond_client_errors(x: UpstreamFailure)
    ensures
        render(translation(x)).status == StatusCategory::Unauthorized ==> render(
            translation(x),
        ).body == "Unauthorized"@,
        render(translation(x)).status == StatusCategory::InternalServerError ==> is_server_tag(
            render(translation(x)).body,
        ),
{
}

impl ServiceError {
    pub fn from_data_store(failure: DataStoreFailure) -> (r: ServiceError)
        ensures
            r@ == data_store_rule(failure),
    {
        match failure {
            DataStoreFailure::Database { kind, detail, message } => match kind {
                DatabaseErrorKind::UniqueViolation => match detail {
                    Some(d) => ServiceError::BadRequest(d),
                    None => ServiceError::BadRequest(message),
                },
                DatabaseErrorKind::ForeignKeyViolation
                | DatabaseErrorKind::UnableToSendCommand
                | DatabaseErrorKind::SerializationFailure
                | DatabaseErrorKind::ReadOnlyTransaction
                | DatabaseErrorKind::RestrictViolation
                | DatabaseErrorKind::NotNullViolation
                | DatabaseErrorKind::CheckViolation
                | DatabaseErrorKind::ExclusionViolation
                | DatabaseErrorKind::ClosedConnection => ServiceError::InternalServerError(
                    String::from_str("database"),
                ),
                // kinds that diesel does not name, or may add later
                _ => ServiceError::InternalServerError(String::from_str("database")),
            },
            DataStoreFailure::NotFound => ServiceError::NotFound(
                String::from_str("requested record was not found"),
            ),
            DataStoreFailure::InvalidCString
            | DataStoreFailure::QueryBuilder
            | DataStoreFailure::Deserialization
            | DataStoreFailure::Serialization
            | DataStoreFailure::RollbackErrorOnCommit
            | DataStoreFailure::RollbackTransaction
            | DataStoreFailure::AlreadyInTransaction
            | DataStoreFailure::NotInTransaction
            | DataStoreFailure::BrokenTransactionManager
            | DataStoreFailure::IntegerConversion
            | DataStoreFailure::Unknown => ServiceError::InternalServerError(
                String::from_str("database"),
            ),
        }
    }

    pub fn from_pool_failure() -> (r: ServiceError)
        ensures
            r@ == pool_rule(),
    {
        ServiceError::InternalServerError(String::from_str("pool"))
    }

    pub fn from_token(kind: JwtErrorKind) -> (r: ServiceError)
        ensures
            r@ == token_rule(kind),
    {
        match kind {
            JwtErrorKind::InvalidToken => ServiceError::BadRequest(String::from_str("Invalid Token")),
            JwtErrorKind::InvalidIssuer => ServiceError::BadRequest(
                String::from_str("Invalid Issuer"),
            ),
            JwtErrorKind::InvalidSignature
            | JwtErrorKind::InvalidEcdsaKey
            | JwtErrorKind::InvalidRsaKey(_)
            | JwtErrorKind::RsaFailedSigning
            | JwtErrorKind::InvalidAlgorithmName
            | JwtErrorKind::InvalidKeyFormat
            | JwtErrorKind::MissingRequiredClaim(_)
            | JwtErrorKind::ExpiredSignature
            | JwtErrorKind::InvalidAudience
            | JwtErrorKind::InvalidSubject
            | JwtErrorKind::ImmatureSignature
            | JwtErrorKind::InvalidAlgorithm
            | JwtErrorKind::MissingAlgorithm
            | JwtErrorKind::Base64(_)
            | JwtErrorKind::Json(_)
            | JwtErrorKind::Utf8(_)
            | JwtErrorKind::Crypto(_) => ServiceError::Unauthorized,
            // kinds that a later jsonwebtoken release may add
            _ => ServiceError::Unauthorized,
        }
    }

    pub fn from_messaging(failure: actix::MailboxError) -> (r: ServiceError)
        ensures
            r@ == messaging_rule(failure),
    {
        ServiceError::InternalServerError(String::from_str("mailbox"))
    }

    pub fn from_encoder(failure: harsh::Error) -> (r: ServiceError)
        ensures
            r@ == encoder_rule(failure),
    {
        match failure {
            harsh::Error::AlphabetLength => ServiceError::InternalServerError(
                String::from_str("harsh AlphabetLength error"),
            ),
            harsh::Error::IllegalCharacter(_) => ServiceError::InternalServerError(
                String::from_str("harsh IllegalCharacter error"),
            ),
            harsh::Error::Separator => ServiceError::InternalServerError(
                String::from_str("harsh Separator error"),
            ),
        }
    }

    /// Translates a failure of any upstream subsystem; total, never fails.
    pub fn translate(failure: UpstreamFailure) -> (r: ServiceError)
        ensures
            r@ == translation(failure),
    {
        match failure {
            UpstreamFailure::DataStore(d) => ServiceError::from_data_store(d),
            UpstreamFailure::Pool => ServiceError::from_pool_failure(),
            UpstreamFailure::Token(t) => ServiceError::from_token(t),
            UpstreamFailure::Messaging(m) => ServiceError::from_messaging(m),
            UpstreamFailure::Encoder(e) => ServiceError::from_encoder(e),
        }
    }
}

// `from_spec` would have to build a `String` inside a spec function, which
// cannot be done; each `from` below states its result in its own `ensures`,
// over the named conversions of `crate::upstream` where the error is opaque.
impl From<diesel::result::Error> for ServiceError {
    fn from(error: diesel::result::Error) -> (r: ServiceError)
        ensures
            r@ == data_store_rule(data_store_failure_model(error)),
    {
        ServiceError::from_data_store(data_store_failure_of(error))
    }
}

impl vstd::std_specs::convert::FromSpecImpl<diesel::result::Error> for ServiceError {
    open spec fn obeys_from_spec() -> bool {
        false
    }

    open spec fn from_spec(v: diesel::result::Error) -> ServiceError {
        arbitrary()
    }
}

impl From<diesel::r2d2::PoolError> for ServiceError {
    fn from(error: diesel::r2d2::PoolError) -> (r: ServiceError)
        ensures
            r@ == pool_rule(),
    {
        ServiceError::from_pool_failure()
    }
}

impl vstd::std_specs::convert::FromSpecImpl<diesel::r2d2::PoolError> for ServiceError {
    open spec fn obeys_from_spec() -> bool {
        false
    }

    open spec fn from_spec(v: diesel::r2d2::PoolError) -> ServiceError {
        arbitrary()
    }
}

impl From<jsonwebtoken::errors::Error> for ServiceError {
    fn from(error: jsonwebtoken::errors::Error) -> (r: ServiceError)
        ensures
            r@ == token_rule(jwt_error_kind(error)),
    {
        ServiceError::from_token(error.into_kind())
    }
}

impl vstd::std_specs::convert::FromSpecImpl<jsonwebtoken::errors::Error> for ServiceError {
    open spec fn obeys_from_spec() -> bool {
        false
    }

    open spec fn from_spec(v: jsonwebtoken::errors::Error) -> ServiceError {
        arbitrary()
    }
}

impl From<actix::MailboxError> for ServiceError {
    fn from(error: actix::MailboxError) -> (r: ServiceError)
        ensures
            r@ == messaging_rule(error),
    {
        ServiceError::from_messaging(error)
    }
}

impl vstd::std_specs::convert::FromSpecImpl<actix::MailboxError> for ServiceError {
    open spec fn obeys_from_spec() -> bool {
        false
    }

    open spec fn from_spec(v: actix::MailboxError) -> ServiceError {
        arbitrary()
    }
}

impl From<harsh::Error> for ServiceError {
    fn from(error: harsh::Error) -> (r: ServiceError)
        ensures
            r@ == encoder_rule(error),
    {
        ServiceError::from_encoder(error)
    }
}

impl vstd::std_specs::convert::FromSpecImpl<harsh::Error> for ServiceError {
    open spec fn obeys_from_spec() -> bool {
        false
    }

    open spec fn from_spec(v: harsh::Error) -> ServiceError {
        arbitrary()
    }
}

} // verus!
