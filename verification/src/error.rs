//! Status codes of the driver and the errors of this crate.

use vstd::prelude::*;

verus! {

/// The code by which the driver reports success.
pub const STATUS_SUCCESS: i32 = 0;

/// A status code returned by a driver call.
#[derive(Clone, Copy, Debug, PartialEq, Eq, Structural)]
pub struct Status {
    pub code: i32,
}

impl Status {
    /// Wraps a raw status code.
    pub fn new(code: i32) -> (status: Status)
        ensures
            status == (Status { code }),
    {
        Status { code }
    }

    /// The status of a call that succeeded.
    pub fn success() -> (status: Status)
        ensures
            status == (Status { code: STATUS_SUCCESS }),
            status.is_success(),
    {
        Status { code: STATUS_SUCCESS }
    }

    /// Whether the code reports success.
    #[verifier::when_used_as_spec(spec_is_success)]
    pub fn is_success(&self) -> (ok: bool)
        ensures
            ok == self.spec_is_success(),
    {
        self.code == STATUS_SUCCESS
    }

    /// A status is a success exactly when its code is [`STATUS_SUCCESS`].
    pub open spec fn spec_is_success(&self) -> bool {
        self.code == STATUS_SUCCESS
    }
}

/// What can go wrong when a kernel is created, bound or dispatched.
#[derive(Debug, PartialEq, Eq)]
pub enum Error {
    /// The driver refused to create a kernel for the entry point `name`.
    KernelCreationFailed { name: String, status: Status },
    /// No argument was registered under `name`.
    InvalidArgumentName { name: String },
    /// A size was asked of work dimensions that are unspecified.
    DimensionsUnspecified,
    /// The driver refused the argument pushed to slot `index`.
    SetArgFailed { index: u32, status: Status },
    /// The driver refused to enqueue the kernel.
    EnqueueFailed { status: Status },
}

/// An [`Error`] as a mathematical value.
pub enum ErrorView {
    KernelCreationFailed { name: Seq<char>, status: Status },
    InvalidArgumentName { name: Seq<char> },
    DimensionsUnspecified,
    SetArgFailed { index: u32, status: Status },
    EnqueueFailed { status: Status },
}

impl View for Error {
    type V = ErrorView;

    open spec fn view(&self) -> ErrorView {
        match *self {
            Error::KernelCreationFailed { name, status } => ErrorView::KernelCreationFailed {
                name: name@,
                status,
            },
            Error::InvalidArgumentName { name } => ErrorView::InvalidArgumentName { name: name@ },
            Error::DimensionsUnspecified => ErrorView::DimensionsUnspecified,
            Error::SetArgFailed { index, status } => ErrorView::SetArgFailed { index, status },
            Error::EnqueueFailed { status } => ErrorView::EnqueueFailed { status },
        }
    }
}

impl ErrorView {
    /// The status that the driver attached to a failure, if any did.
    pub open spec fn api_status(self) -> Option<Status> {
        match self {
            ErrorView::KernelCreationFailed { status, .. } => Some(status),
            ErrorView::SetArgFailed { status, .. } => Some(status),
            ErrorView::EnqueueFailed { status } => Some(status),
            ErrorView::InvalidArgumentName { .. } => None,
            ErrorView::DimensionsUnspecified => None,
        }
    }
}

impl Error {
    /// Returns the driver's status code for errors that the driver raised,
    /// and `None` for errors found on the host side.
    pub fn api_status(&self) -> (status: Option<Status>)
        ensures
            status == self@.api_status(),
    {
        match self {
            Error::KernelCreationFailed { status, .. } => Some(*status),
            Error::SetArgFailed { status, .. } => Some(*status),
            Error::EnqueueFailed { status } => Some(*status),
            Error::InvalidArgumentName { .. } => None,
            Error::DimensionsUnspecified => None,
        }
    }
}

} // verus!
