//! The caller-facing error taxonomy and its rendering into responses.
use vstd::prelude::*;

verus! {

/// A failure as the caller sees it.
///
/// `BadRequest` and `NotFound` may carry detail that is safe to show to the
/// caller; `InternalServerError` carries only a fixed tag, and `Unauthorized`
/// carries nothing.
#[derive(Debug, Clone, PartialEq, Eq)]
pub enum ServiceError {
    BadRequest(String),
    Unauthorized,
    NotFound(String),
    InternalServerError(String),
}

/// The mathematical model of a [`ServiceError`]: its variant and the characters
/// of its message.
pub enum ServiceErrorView {
    BadRequest(Seq<char>),
    Unauthorized,
    NotFound(Seq<char>),
    InternalServerError(Seq<char>),
}

impl View for ServiceError {
    type V = ServiceErrorView;

    open spec fn view(&self) -> ServiceErrorView {
        match self {
            ServiceError::BadRequest(m) => ServiceErrorView::BadRequest(m@),
            ServiceError::Unauthorized => ServiceErrorView::Unauthorized,
            ServiceError::NotFound(m) => ServiceErrorView::NotFound(m@),
            ServiceError::InternalServerError(m) => ServiceErrorView::InternalServerError(m@),
        }
    }
}

/// The status class of a rendered response.
#[derive(Debug, Clone, Copy, PartialEq, Eq, Structural)]
pub enum StatusCategory {
    /// Client error: the request was malformed or broke a constraint.
    BadRequest,
    /// Client error: authentication is required.
    Unauthorized,
    /// Client error: the resource is absent.
    NotFound,
    /// Server error.
    InternalServerError,
}

impl StatusCategory {
    /// The HTTP status code that stands for the category.
    pub open spec fn spec_code(self) -> u16 {
        match self {
            StatusCategory::BadRequest => 400,
            StatusCategory::Unauthorized => 401,
            StatusCategory::NotFound => 404,
            StatusCategory::InternalServerError => 500,
        }
    }

    /// The HTTP status code of the category.
    pub fn code(&self) -> (r: u16)
        ensures
            r == self.spec_code(),
    {
        match self {
            StatusCategory::BadRequest => 400,
            StatusCategory::Unauthorized => 401,
            StatusCategory::NotFound => 404,
            StatusCategory::InternalServerError => 500,
        }
    }
}

/// A response ready for the transport layer: a status category and the text
/// that is to be sent as the JSON body.
#[derive(Debug, Clone, PartialEq, Eq)]
pub struct RenderedResponse {
    pub status: StatusCategory,
    pub body: String,
}

/// The mathematical model of a [`RenderedResponse`].
pub struct ResponseView {
    pub status: StatusCategory,
    pub body: Seq<char>,
}

impl View for RenderedResponse {
    type V = ResponseView;

    open spec fn view(&self) -> ResponseView {
        ResponseView { status: self.status, body: self.body@ }
    }
}

/// The status category that an error renders to.
pub open spec fn status_of(e: ServiceErrorView) -> StatusCategory {
    match e {
        ServiceErrorView::BadRequest(_) => StatusCategory::BadRequest,
        ServiceErrorView::Unauthorized => StatusCategory::Unauthorized,
        ServiceErrorView::NotFound(_) => StatusCategory::NotFound,
        ServiceErrorView::InternalServerError(_) => StatusCategory::InternalServerError,
    }
}

/// The body that an error renders to: its message, or the fixed text
/// "Unauthorized" for the variant that has none.
pub open spec fn body_of(e: ServiceErrorView) -> Seq<char> {
    match e {
        ServiceErrorView::BadRequest(m) => m,
        ServiceErrorView::Unauthorized => "Unauthorized"@,
        ServiceErrorView::NotFound(m) => m,
        ServiceErrorView::InternalServerError(m) => m,
    }
}

/// Rendering of an error into a response.
pub open spec fn render(e: ServiceErrorView) -> ResponseView {
    ResponseView { status: status_of(e), body: body_of(e) }
}

impl ServiceError {
    /// Renders the error into a response; total, and a function of the
    /// error's model alone.
    pub fn error_response(&self) -> (r: RenderedResponse)
        ensures
            r@ == render(self@),
    {
        match self {
            ServiceError::InternalServerError(message) => RenderedResponse {
                status: StatusCategory::InternalServerError,
                body: message.clone(),
            },
            ServiceError::BadRequest(message) => RenderedResponse {
                status: StatusCategory::BadRequest,
                body: message.clone(),
            },
            ServiceError::Unauthorized => RenderedResponse {
                status: StatusCategory::Unauthorized,
                body: String::from_str("Unauthorized"),
            },
            ServiceError::NotFound(message) => RenderedResponse {
                status: StatusCategory::NotFound,
                body: message.clone(),
            },
        }
    }
}

} // verus!
