use vstd::prelude::*;

verus! {

/// The cause carried by a read failure that a stall monitor synthesises:
/// no bytes were observed during the most recently completed interval.
#[derive(Debug, Clone, Copy, PartialEq, Eq, Structural)]
pub struct StalledError {}

impl StalledError {
    /// The human-readable line for this error.
    pub fn message(&self) -> (r: String)
        ensures
            r@ == "StalledError\n"@,
    {
        let r = String::from_str("StalledError\n");
        proof {
            reveal_strlit("StalledError\n");
        }
        r
    }
}

/// Classification of an I/O failure, as far as this library tells them apart.
#[derive(Debug, Clone, Copy, PartialEq, Eq, Structural)]
pub enum IoErrorKind {
    TimedOut,
    Other,
}

/// The nested cause of an I/O failure.
#[derive(Debug, Clone, PartialEq, Eq)]
pub enum IoCause {
    /// A stall monitor saw an empty window.
    Stalled(StalledError),
    /// Any other failure, by its message.
    Message(String),
}

/// An I/O failure: a classification and a nested cause.
#[derive(Debug, Clone, PartialEq, Eq)]
pub struct IoError {
    pub kind: IoErrorKind,
    pub cause: IoCause,
}

impl IoError {
    /// The failure a stall monitor puts in place of the inner read's result.
    pub fn stalled() -> (r: IoError)
        ensures
            r.kind == IoErrorKind::TimedOut,
            r.cause == IoCause::Stalled(StalledError {}),
    {
        IoError { kind: IoErrorKind::TimedOut, cause: IoCause::Stalled(StalledError {}) }
    }

    /// Whether this failure is the one a stall monitor synthesises.
    pub fn is_stalled(&self) -> (r: bool)
        ensures
            r == (self.kind == IoErrorKind::TimedOut && self.cause is Stalled),
    {
        match self.cause {
            IoCause::Stalled(_) => self.kind == IoErrorKind::TimedOut,
            IoCause::Message(_) => false,
        }
    }
}

/// The one failure of a download: an underlying cause, carried as is.
#[derive(Debug, Clone, PartialEq, Eq)]
pub enum ApiError {
    WrappedError(IoError),
}

impl ApiError {
    /// Wraps an underlying failure.
    pub fn wrap(e: IoError) -> (r: ApiError)
        ensures
            r == ApiError::WrappedError(e),
    {
        ApiError::WrappedError(e)
    }
}

/// Collapses the error of a result into an [`ApiError`].
pub trait WrapApiError<T>: Sized {
    fn wrap_api_err(self) -> Result<T, ApiError>;
}

impl<T> WrapApiError<T> for Result<T, IoError> {
    fn wrap_api_err(self) -> (r: Result<T, ApiError>)
        ensures
            self is Ok ==> r == Ok::<T, ApiError>(self->Ok_0),
            self is Err ==> r == Err::<T, ApiError>(ApiError::WrappedError(self->Err_0)),
    {
        match self {
            Ok(t) => Ok(t),
            Err(e) => Err(ApiError::wrap(e)),
        }
    }
}

} // verus!
