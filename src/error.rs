use vstd::prelude::*;

verus! {

/// Every way a request can fail.
#[derive(Clone, Copy, Debug, PartialEq, Eq, Structural)]
pub enum ServiceError {
    /// The artist key names no profile.
    UnknownArtist,
    /// The upload carried no payload bytes.
    EmptyPayload,
    /// A client-supplied name would leave its directory.
    InvalidPath,
    /// Writing or reading local storage failed.
    StorageFailure,
    /// The conversion tool could not be started or did not exit with success.
    ConversionFailed,
    /// The conversion tool ran past its time limit and was stopped.
    ConversionTimeout,
    /// The requested download does not exist.
    NotFound,
}

/// Whether the error is the client's doing (reported as a 4xx status).
pub open spec fn is_client_error(e: ServiceError) -> bool {
    match e {
        ServiceError::UnknownArtist | ServiceError::EmptyPayload | ServiceError::InvalidPath
        | ServiceError::NotFound => true,
        _ => false,
    }
}

/// The HTTP status that reports the error.
pub open spec fn status_of(e: ServiceError) -> u16 {
    match e {
        ServiceError::UnknownArtist => 400,
        ServiceError::EmptyPayload => 400,
        ServiceError::InvalidPath => 400,
        ServiceError::NotFound => 404,
        ServiceError::StorageFailure => 500,
        ServiceError::ConversionFailed => 502,
        ServiceError::ConversionTimeout => 502,
    }
}

impl ServiceError {
    /// The HTTP status code of the response that reports this error.
    pub fn status_code(&self) -> (r: u16)
        ensures
            r == status_of(*self),
            is_client_error(*self) ==> 400 <= r < 500,
            !is_client_error(*self) ==> 500 <= r < 600,
    {
        match self {
            ServiceError::UnknownArtist => 400,
            ServiceError::EmptyPayload => 400,
            ServiceError::InvalidPath => 400,
            ServiceError::NotFound => 404,
            ServiceError::StorageFailure => 500,
            ServiceError::ConversionFailed => 502,
            ServiceError::ConversionTimeout => 502,
        }
    }
}

} // verus!
