//! The failures that upstream subsystems report, as this library models them,
//! and the outside types they come from.
use vstd::prelude::*;

use diesel::result::Error as DieselError;

verus! {

// Declarations of the outside types. diesel's `Error`, r2d2's pool error,
// jsonwebtoken's `Error` and the payloads of its `ErrorKind` are opaque here;
// the enums that verified code matches on (diesel's `DatabaseErrorKind`,
// jsonwebtoken's `ErrorKind`, actix's `MailboxError`, harsh's `Error`) are
// declared with their variants.
#[verifier::external_type_specification]
#[verifier::external_body]
pub struct ExDieselError(diesel::result::Error);

#[verifier::external_type_specification]
pub struct ExDatabaseErrorKind(diesel::result::DatabaseErrorKind);

#[verifier::external_type_specification]
#[verifier::external_body]
pub struct ExPoolError(diesel::r2d2::PoolError);

#[verifier::external_type_specification]
#[verifier::external_body]
pub struct ExJwtError(jsonwebtoken::errors::Error);

#[verifier::external_type_specification]
pub struct ExJwtErrorKind(jsonwebtoken::errors::ErrorKind);

#[verifier::external_type_specification]
#[verifier::external_body]
pub struct ExBase64DecodeError(base64::DecodeError);

#[verifier::external_type_specification]
#[verifier::external_body]
pub struct ExJsonError(serde_json::Error);

#[verifier::external_type_specification]
#[verifier::external_body]
pub struct ExFromUtf8Error(std::string::FromUtf8Error);

#[verifier::external_type_specification]
#[verifier::external_body]
pub struct ExCryptoUnspecified(ring::error::Unspecified);

#[verifier::external_type_specification]
pub struct ExMailboxError(actix::MailboxError);

#[verifier::external_type_specification]
pub struct ExHarshError(harsh::Error);

/// A failed data-store operation: one variant for each of diesel's errors,
/// with the payloads that the translation reads.
#[derive(Debug)]
pub enum DataStoreFailure {
    InvalidCString,
    /// The database rejected the operation; `kind` classifies why, `message`
    /// is its primary message and `detail` its optional secondary one.
    Database { kind: diesel::result::DatabaseErrorKind, detail: Option<String>, message: String },
    /// The record that was asked for does not exist.
    NotFound,
    QueryBuilder,
    Deserialization,
    Serialization,
    RollbackErrorOnCommit,
    RollbackTransaction,
    AlreadyInTransaction,
    NotInTransaction,
    BrokenTransactionManager,
    IntegerConversion,
    /// A kind of failure that a later diesel release added.
    Unknown,
}

/// What a diesel error is, as a [`DataStoreFailure`].
pub uninterp spec fn data_store_failure_model(e: diesel::result::Error) -> DataStoreFailure;

/// The kind inside a jsonwebtoken error.
pub uninterp spec fn jwt_error_kind(e: jsonwebtoken::errors::Error) -> jsonwebtoken::errors::ErrorKind;

/// Relies on the variants of diesel's `Error` and on
/// `DatabaseErrorInformation::{details, message}`: converts the error variant
/// for variant, moving the database error's kind and texts out as plain values.
#[verifier::external_body]
pub(crate) fn data_store_failure_of(error: diesel::result::Error) -> (r: DataStoreFailure)
    ensures
        r == data_store_failure_model(error),
{
    match error {
        DieselError::InvalidCString(_) => DataStoreFailure::InvalidCString,
        DieselError::DatabaseError(kind, info) => DataStoreFailure::Database { kind, detail: info.details().map(str::to_string), message: info.message().to_string() },
        DieselError::NotFound => DataStoreFailure::NotFound,
        DieselError::QueryBuilderError(_) => DataStoreFailure::QueryBuilder,
        DieselError::DeserializationError(_) => DataStoreFailure::Deserialization,
        DieselError::SerializationError(_) => DataStoreFailure::Serialization,
        DieselError::RollbackErrorOnCommit { .. } => DataStoreFailure::RollbackErrorOnCommit,
        DieselError::RollbackTransaction => DataStoreFailure::RollbackTransaction,
        DieselError::AlreadyInTransaction => DataStoreFailure::AlreadyInTransaction,
        DieselError::NotInTransaction => DataStoreFailure::NotInTransaction,
        DieselError::BrokenTransactionManager => DataStoreFailure::BrokenTransactionManager,
        DieselError::IntegerConversion(_) => DataStoreFailure::IntegerConversion,
        _ => DataStoreFailure::Unknown,
    }
}

/// Relies on jsonwebtoken's `Error::into_kind`, which unwraps the boxed kind
/// that the error holds.
pub assume_specification[ jsonwebtoken::errors::Error::into_kind ](
    e: jsonwebtoken::errors::Error,
) -> (r: jsonwebtoken::errors::ErrorKind)
    ensures
        r == jwt_error_kind(e),
;

} // verus!
