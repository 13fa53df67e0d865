//! The failures a request can end in, and how each is shown to the client.

use vstd::prelude::*;

verus! {

/// HTTP status of a response served as asked.
pub const STATUS_OK: u16 = 200;

/// HTTP status for a repository that is not configured.
pub const STATUS_NOT_FOUND: u16 = 404;

/// HTTP status for a cache store that could not be used.
pub const STATUS_INTERNAL_SERVER_ERROR: u16 = 500;

/// HTTP status for an upstream that could not be reached.
pub const STATUS_BAD_GATEWAY: u16 = 502;

/// Why a request was answered without a file.
#[derive(Debug, Clone, Copy, PartialEq, Eq, Structural)]
pub enum AptCacheError {
    /// No repository of the requested name is configured.
    RepositoryNotFound,
    /// The upstream could not be reached or broke the protocol.
    UpstreamFailure,
    /// The cache store failed on this request.
    CacheFailure,
}

/// The body of an error response, before it is encoded.
#[derive(Debug, Clone, Copy)]
pub struct ResponseError {
    pub error: &'static str,
    pub error_description: &'static str,
}

impl AptCacheError {
    /// The machine-readable code of the error.
    pub open spec fn code(self) -> Seq<char> {
        match self {
            AptCacheError::RepositoryNotFound => "repository_not_found"@,
            AptCacheError::UpstreamFailure => "upstream_failure"@,
            AptCacheError::CacheFailure => "cache_failure"@,
        }
    }

    /// The sentence that describes the error to a reader.
    pub open spec fn description(self) -> Seq<char> {
        match self {
            AptCacheError::RepositoryNotFound => "The repository wasn't found"@,
            AptCacheError::UpstreamFailure => "The upstream repository couldn't be reached"@,
            AptCacheError::CacheFailure => "The cache couldn't be used"@,
        }
    }

    /// The HTTP status the error is answered with.
    pub open spec fn status(self) -> u16 {
        match self {
            AptCacheError::RepositoryNotFound => STATUS_NOT_FOUND,
            AptCacheError::UpstreamFailure => STATUS_BAD_GATEWAY,
            AptCacheError::CacheFailure => STATUS_INTERNAL_SERVER_ERROR,
        }
    }

    /// The error body and the HTTP status that answer a request ending in
    /// this error.
    pub fn response_error(&self) -> (response: (ResponseError, u16))
        ensures
            response.0.error@ == self.code(),
            response.0.error_description@ == self.description(),
            response.1 == self.status(),
    {
        match self {
            AptCacheError::RepositoryNotFound => (
                ResponseError {
                    error: "repository_not_found",
                    error_description: "The repository wasn't found",
                },
                STATUS_NOT_FOUND,
            ),
            AptCacheError::UpstreamFailure => (
                ResponseError {
                    error: "upstream_failure",
                    error_description: "The upstream repository couldn't be reached",
                },
                STATUS_BAD_GATEWAY,
            ),
            AptCacheError::CacheFailure => (
                ResponseError {
                    error: "cache_failure",
                    error_description: "The cache couldn't be used",
                },
                STATUS_INTERNAL_SERVER_ERROR,
            ),
        }
    }
}

} // verus!
