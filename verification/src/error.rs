//! Errors of controller operations.
use vstd::prelude::*;

verus! {

/// Errors of controller operations.
#[derive(Debug, Clone, PartialEq, Eq)]
pub enum CoreError {
    DeviceNotFound { identifier: String },
    ClientNotFound { identifier: String },
    NetworkNotFound { identifier: String },
    SiteNotFound { name: String },
    ValidationFailed { message: String },
    Unsupported { operation: String, required: String },
    NotFound { entity_type: String, identifier: String },
    ControllerDisconnected,
    Api { message: String, status: Option<u16> },
}

/// The mathematical form of a [`CoreError`].
pub enum ErrorView {
    DeviceNotFound(Seq<char>),
    ClientNotFound(Seq<char>),
    NetworkNotFound(Seq<char>),
    SiteNotFound(Seq<char>),
    ValidationFailed(Seq<char>),
    Unsupported(Seq<char>, Seq<char>),
    NotFound(Seq<char>, Seq<char>),
    ControllerDisconnected,
    Api(Seq<char>, Option<u16>),
}

impl View for CoreError {
    type V = ErrorView;

    open spec fn view(&self) -> ErrorView {
        match self {
            CoreError::DeviceNotFound { identifier } => ErrorView::DeviceNotFound(identifier@),
            CoreError::ClientNotFound { identifier } => ErrorView::ClientNotFound(identifier@),
            CoreError::NetworkNotFound { identifier } => ErrorView::NetworkNotFound(identifier@),
            CoreError::SiteNotFound { name } => ErrorView::SiteNotFound(name@),
            CoreError::ValidationFailed { message } => ErrorView::ValidationFailed(message@),
            CoreError::Unsupported { operation, required } => ErrorView::Unsupported(
                operation@,
                required@,
            ),
            CoreError::NotFound { entity_type, identifier } => ErrorView::NotFound(entity_type@, identifier@),
            CoreError::ControllerDisconnected => ErrorView::ControllerDisconnected,
            CoreError::Api { message, status } => ErrorView::Api(message@, *status),
        }
    }
}

/// A validation error with the given message.
pub fn validation_failed(message: String) -> (res: CoreError)
    ensures
        res@ == ErrorView::ValidationFailed(message@),
{
    CoreError::ValidationFailed { message }
}

} // verus!
