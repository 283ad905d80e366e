use vstd::prelude::*;

verus! {

/// The ways an operation of the control plane can fail.
#[derive(Debug, Clone, Copy, PartialEq, Eq, Structural)]
pub enum ServiceError {
    /// A configuration or core file could not be read or written.
    Io,
    /// A persisted document is not valid JSON of its shape.
    Parse,
    /// No core executable by that name, or no core selected at all.
    NotFound,
    /// The core process could not be created.
    Spawn,
    /// The HTTP listener could not bind its address.
    Bind,
    /// A request's bearer token does not match the secret.
    Auth,
}

impl ServiceError {
    /// A short description of the failure.
    pub fn message(&self) -> (r: &'static str)
        ensures
            r@ == match *self {
                ServiceError::Io => "file read or write failed"@,
                ServiceError::Parse => "malformed configuration document"@,
                ServiceError::NotFound => "core executable not found"@,
                ServiceError::Spawn => "failed to start the core process"@,
                ServiceError::Bind => "failed to bind the web server address"@,
                ServiceError::Auth => "authorization failed"@,
            },
    {
        match self {
            ServiceError::Io => "file read or write failed",
            ServiceError::Parse => "malformed configuration document",
            ServiceError::NotFound => "core executable not found",
            ServiceError::Spawn => "failed to start the core process",
            ServiceError::Bind => "failed to bind the web server address",
            ServiceError::Auth => "authorization failed",
        }
    }
}

} // verus!
