//! What can go wrong between the host and a display.

use vstd::prelude::*;

verus! {

/// An error of the operating system's input and output. Nothing is known of
/// what one holds.
#[verifier::external_type_specification]
#[verifier::external_body]
pub struct ExIoError(std::io::Error);

/// Why an operation on a display failed.
#[derive(Debug)]
pub enum DdcError {
    /// A bus or device could not be opened.
    OpenError(String),
    /// A request was sent and the reply failed, or the display lacks the
    /// feature.
    CommError(String),
    /// No usable monitor was found, or there is none at the given index.
    NoMonitors,
    /// The rights to reach a device node are missing.
    PermissionDenied(String),
    /// The file system or the transport failed.
    IoError(std::io::Error),
}

/// A `DdcError` with its messages as sequences of characters.
pub enum DdcErrorView {
    OpenError(Seq<char>),
    CommError(Seq<char>),
    NoMonitors,
    PermissionDenied(Seq<char>),
    IoError(std::io::Error),
}

impl View for DdcError {
    type V = DdcErrorView;

    open spec fn view(&self) -> DdcErrorView {
        match self {
            DdcError::OpenError(message) => DdcErrorView::OpenError(message@),
            DdcError::CommError(message) => DdcErrorView::CommError(message@),
            DdcError::NoMonitors => DdcErrorView::NoMonitors,
            DdcError::PermissionDenied(message) => DdcErrorView::PermissionDenied(message@),
            DdcError::IoError(cause) => DdcErrorView::IoError(*cause),
        }
    }
}

/// A result with its error as a view.
pub open spec fn outcome<T>(r: Result<T, DdcError>) -> Result<T, DdcErrorView> {
    match r {
        Ok(value) => Ok(value),
        Err(error) => Err(error@),
    }
}

/// What a driver reports of a bus exchange, with the failure's text as a
/// sequence of characters.
pub open spec fn reported<T>(r: Result<T, String>) -> Result<T, Seq<char>> {
    match r {
        Ok(value) => Ok(value),
        Err(message) => Err(message@),
    }
}

} // verus!
