//! The structured error value that every operation of the library
//! surfaces to its caller. No failure is retried or masked internally.

use vstd::prelude::*;

verus! {

/// Everything that can go wrong while resolving credentials, building a
/// request, dispatching it, or assembling paginated results.
///
/// Resolver errors distinguish "inputs present but malformed" (hard
/// errors, which abort the whole resolution) from "inputs absent"
/// (which is not an error at all and is modeled as fallthrough by the
/// resolver chain, never by a variant here).
#[derive(Debug, Clone, PartialEq, Eq)]
pub enum PlatzClientError {
    /// No resolver produced credentials: every source was absent.
    NoConfigFound,
    /// An OS-level failure (other than absence) while reading a
    /// configuration or secret file; carries a description of the failure.
    ConfigReadError(String),
    /// The profile configuration file was present but could not be
    /// parsed; carries the parser's description.
    ConfigDeserializationError(String),
    /// The profile configuration file parsed but its contents violate a
    /// rule (several default profiles, or a missing requested profile).
    ConfigTomlError(String),
    /// An environment variable was present but unusable (not readable as
    /// text, not a valid URL, or empty); carries the variable name.
    EnvVarParseError(String),
    /// A server address from a resolver source did not parse as a URL.
    MountedUrlParseError,
    /// The expiry timestamp from the mounted secret did not parse.
    MountedExpiryParseError,
    /// Joining a relative path against the server base address failed.
    UrlJoinError,
    /// Building or sending the outbound request failed at the transport
    /// level; carries a description.
    ReqwestError(String),
    /// The credential material cannot be rendered as an HTTP header.
    ErrorCreatingAuthHeader,
    /// The request cannot be re-issued for further pages.
    CannotPaginate,
    /// The server answered with a non-success status; carries the status
    /// code and the best-effort body text (empty when unreadable).
    HttpError(u16, String),
    /// Exactly one item was expected but the result set was empty.
    ExpectedOneGotNone,
    /// Exactly one item was expected; carries the actual count.
    ExpectedOneGotMany(usize),
}

/// The mathematical image of a `PlatzClientError`: the same tag with
/// every text payload taken to its character sequence. Contracts state
/// which error a function returns in terms of this type.
pub enum ErrorView {
    NoConfigFound,
    ConfigReadError(Seq<char>),
    ConfigDeserializationError(Seq<char>),
    ConfigTomlError(Seq<char>),
    EnvVarParseError(Seq<char>),
    MountedUrlParseError,
    MountedExpiryParseError,
    UrlJoinError,
    ReqwestError(Seq<char>),
    ErrorCreatingAuthHeader,
    CannotPaginate,
    HttpError(int, Seq<char>),
    ExpectedOneGotNone,
    ExpectedOneGotMany(int),
}

impl DeepView for PlatzClientError {
    type V = ErrorView;

    open spec fn deep_view(&self) -> ErrorView {
        match self {
            PlatzClientError::NoConfigFound => ErrorView::NoConfigFound,
            PlatzClientError::ConfigReadError(s) => ErrorView::ConfigReadError(s@),
            PlatzClientError::ConfigDeserializationError(s) => ErrorView::ConfigDeserializationError(
                s@,
            ),
            PlatzClientError::ConfigTomlError(s) => ErrorView::ConfigTomlError(s@),
            PlatzClientError::EnvVarParseError(s) => ErrorView::EnvVarParseError(s@),
            PlatzClientError::MountedUrlParseError => ErrorView::MountedUrlParseError,
            PlatzClientError::MountedExpiryParseError => ErrorView::MountedExpiryParseError,
            PlatzClientError::UrlJoinError => ErrorView::UrlJoinError,
            PlatzClientError::ReqwestError(s) => ErrorView::ReqwestError(s@),
            PlatzClientError::ErrorCreatingAuthHeader => ErrorView::ErrorCreatingAuthHeader,
            PlatzClientError::CannotPaginate => ErrorView::CannotPaginate,
            PlatzClientError::HttpError(status, body) => ErrorView::HttpError(
                *status as int,
                body@,
            ),
            PlatzClientError::ExpectedOneGotNone => ErrorView::ExpectedOneGotNone,
            PlatzClientError::ExpectedOneGotMany(n) => ErrorView::ExpectedOneGotMany(*n as int),
        }
    }
}

impl PlatzClientError {
    /// A short stable label for the error category, usable by callers
    /// that only need to tell the kinds apart.
    pub fn kind_name(&self) -> (r: &'static str)
        ensures
            r@ == self.spec_kind_name(),
    {
        match self {
            PlatzClientError::NoConfigFound => "no-config-found",
            PlatzClientError::ConfigReadError(_) => "config-read-error",
            PlatzClientError::ConfigDeserializationError(_) => "config-deserialization-error",
            PlatzClientError::ConfigTomlError(_) => "config-toml-error",
            PlatzClientError::EnvVarParseError(_) => "env-var-parse-error",
            PlatzClientError::MountedUrlParseError => "mounted-url-parse-error",
            PlatzClientError::MountedExpiryParseError => "mounted-expiry-parse-error",
            PlatzClientError::UrlJoinError => "url-join-error",
            PlatzClientError::ReqwestError(_) => "reqwest-error",
            PlatzClientError::ErrorCreatingAuthHeader => "error-creating-auth-header",
            PlatzClientError::CannotPaginate => "cannot-paginate",
            PlatzClientError::HttpError(_, _) => "http-error",
            PlatzClientError::ExpectedOneGotNone => "expected-one-got-none",
            PlatzClientError::ExpectedOneGotMany(_) => "expected-one-got-many",
        }
    }

    /// What `kind_name` returns for each variant.
    pub open spec fn spec_kind_name(&self) -> Seq<char> {
        match self {
            PlatzClientError::NoConfigFound => "no-config-found"@,
            PlatzClientError::ConfigReadError(_) => "config-read-error"@,
            PlatzClientError::ConfigDeserializationError(_) => "config-deserialization-error"@,
            PlatzClientError::ConfigTomlError(_) => "config-toml-error"@,
            PlatzClientError::EnvVarParseError(_) => "env-var-parse-error"@,
            PlatzClientError::MountedUrlParseError => "mounted-url-parse-error"@,
            PlatzClientError::MountedExpiryParseError => "mounted-expiry-parse-error"@,
            PlatzClientError::UrlJoinError => "url-join-error"@,
            PlatzClientError::ReqwestError(_) => "reqwest-error"@,
            PlatzClientError::ErrorCreatingAuthHeader => "error-creating-auth-header"@,
            PlatzClientError::CannotPaginate => "cannot-paginate"@,
            PlatzClientError::HttpError(_, _) => "http-error"@,
            PlatzClientError::ExpectedOneGotNone => "expected-one-got-none"@,
            PlatzClientError::ExpectedOneGotMany(_) => "expected-one-got-many"@,
        }
    }
}

} // verus!
