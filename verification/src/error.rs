//! The status/error bridge.
//!
//! Every engine entry point reports failure through an out-of-band status:
//! either success, or a status object carrying a code and a message.
//! [`status_to_result`] turns that convention into the crate's uniform
//! `Result` shape.
//!
//! A second, orthogonal mechanism serves callback sites where the *host* must
//! hand a status back to the engine: a local [`Error`] is sealed into an
//! opaque [`SysStatus`] handle ([`Error::into_sys`]) and later either
//! inspected in place ([`Error::cast_from_sys`]) or reclaimed exactly once
//! ([`Error::consume_sys`]).  A sealed handle is only ever legal to pass back
//! to this crate's own call sites; handing it to a genuine engine status
//! accessor is a documented caller contract violation that nothing here can
//! detect.

use vstd::prelude::*;

verus! {

/// Error codes mirroring the engine's own status-code taxonomy.
#[derive(Clone, Copy, Debug, PartialEq, Eq, Structural)]
pub enum ErrorCode {
    /// Generic failure reported by the engine.
    Fail,
    /// A caller-supplied argument was rejected (bad shape, size mismatch,
    /// bad string encoding).
    InvalidArgument,
    /// A path handed to the engine named no file.
    NoSuchFile,
    /// The engine had no model to work with.
    NoModel,
    /// An internal engine failure.
    EngineError,
    /// A runtime exception escaped an engine operation.
    RuntimeException,
    /// A model's protobuf payload could not be decoded.
    InvalidProtobuf,
    /// A model was already loaded.
    ModelLoaded,
    /// The requested feature is not implemented or not compiled in.
    NotImplemented,
    /// The model graph was rejected.
    InvalidGraph,
    /// An execution provider failed.
    ExecutionProviderFailure,
}

/// The rich host-side error object: a code plus a human-readable message.
#[derive(Debug)]
pub struct Error {
    /// The status code this error carries across the bridge.
    pub code: ErrorCode,
    message: String,
}

/// A local [`Error`] sealed up as an opaque status handle, layout-compatible
/// (in the modelled binding: value-compatible) with the engine's own status
/// type for the sole purpose of crossing a callback boundary.
///
/// The only legal operations are [`Error::cast_from_sys`] (a borrowing read)
/// and [`Error::consume_sys`] (reclaiming ownership); each handle is consumed
/// at most once, by exactly one side.
#[derive(Debug)]
pub struct SysStatus {
    err: Box<Error>,
}

impl Error {
    /// The code this error carries.
    pub closed spec fn spec_code(&self) -> ErrorCode {
        self.code
    }

    /// The message this error carries.
    pub closed spec fn spec_message(&self) -> Seq<char> {
        self.message@
    }

    /// Creates an error from a code and a message.
    pub fn new(code: ErrorCode, message: String) -> (r: Error)
        ensures
            r.spec_code() == code,
            r.spec_message() =~= message@,
    {
        Error { code, message }
    }

    /// The human-readable message.
    pub fn message(&self) -> (r: &str)
        ensures
            r@ =~= self.spec_message(),
    {
        self.message.as_str()
    }

    /// Seals this error into an opaque status handle.  The transfer happens
    /// exactly once per error; the handle must be unsealed by
    /// [`Error::consume_sys`] (or dropped) by exactly one side.
    pub fn into_sys(self) -> (r: SysStatus)
        ensures
            r.spec_code() == self.spec_code(),
            r.spec_message() =~= self.spec_message(),
    {
        SysStatus { err: Box::new(self) }
    }

    /// Creates an error and immediately seals it into a status handle.
    pub fn new_sys(code: ErrorCode, message: String) -> (r: SysStatus)
        ensures
            r.spec_code() == code,
            r.spec_message() =~= message@,
    {
        Error::new(code, message).into_sys()
    }

    /// Reads the error sealed in a status handle without unsealing it.
    pub fn cast_from_sys(ptr: &SysStatus) -> (r: &Error)
        ensures
            r.spec_code() == ptr.spec_code(),
            r.spec_message() =~= ptr.spec_message(),
    {
        &ptr.err
    }

    /// Reclaims ownership of the error sealed in a status handle, consuming
    /// the handle; the reclaim happens exactly once per handle.
    pub fn consume_sys(ptr: SysStatus) -> (r: Box<Error>)
        ensures
            r.spec_code() == ptr.spec_code(),
            r.spec_message() =~= ptr.spec_message(),
    {
        ptr.err
    }
}

impl SysStatus {
    /// The code of the sealed error.
    pub closed spec fn spec_code(&self) -> ErrorCode {
        self.err.code
    }

    /// The message of the sealed error.
    pub closed spec fn spec_message(&self) -> Seq<char> {
        self.err.spec_message()
    }
}

/// An engine call's out-of-band status: success, or a failure carrying the
/// engine's own code and message.
#[derive(Debug)]
pub enum Status {
    /// The engine reported success (in the foreign convention: a null
    /// status pointer).
    Success,
    /// The engine reported failure (a non-null status) with this code and
    /// message; receiving it transfers the duty to release the status,
    /// which the bridge discharges.
    Failure(ErrorCode, String),
}

/// Bridges an engine status into the crate's uniform `Result` shape:
/// success becomes `Ok(())`, a failure status is read out and released,
/// and its code and message are returned as a host [`Error`].
pub fn status_to_result(status: Status) -> (r: Result<(), Error>)
    ensures
        match status {
            Status::Success => r is Ok,
            Status::Failure(code, message) => match r {
                Result::Ok(_) => false,
                Result::Err(e) => e.spec_code() == code && e.spec_message() =~= message@,
            },
        },
{
    match status {
        Status::Success => Ok(()),
        Status::Failure(code, message) => Err(Error::new(code, message)),
    }
}

} // verus!
