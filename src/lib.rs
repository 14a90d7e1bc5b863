//! Translation of upstream failures (data store, connection pool, token
//! validation, actor mailbox, id encoder) into a small, caller-facing error
//! taxonomy, and rendering of that taxonomy into responses.
pub mod service_error;
pub mod translate;
pub mod upstream;

pub use service_error::{RenderedResponse, ServiceError, StatusCategory};
pub use translate::UpstreamFailure;
pub use upstream::DataStoreFailure;
