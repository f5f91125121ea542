//! Errors of the rewrite service.

use vstd::prelude::*;
use crate::status::InvalidStatusCode;
use crate::uri::InvalidUriParts;

verus! {

#[verifier::external_type_specification]
#[verifier::external_body]
pub struct ExEngineError(mod_rewrite::error::EngineError);

#[verifier::external_type_specification]
#[verifier::external_body]
pub struct ExExpressionError(mod_rewrite::error::ExpressionError);

#[verifier::external_type_specification]
#[verifier::external_body]
pub struct ExQueryDecodeError(serde_urlencoded::de::Error);

#[verifier::external_type_specification]
#[verifier::external_body]
pub struct ExQueryEncodeError(serde_urlencoded::ser::Error);

/// What went wrong in a rewrite.
#[derive(Debug)]
pub enum RewriteError {
    /// The engine gave up on its rules.
    Engine(mod_rewrite::error::EngineError),
    /// The text of the rules holds a character outside ASCII.
    NotAscii,
    /// The text of the rules is no rule set.
    Expression(mod_rewrite::error::ExpressionError),
    /// A rule asks for a status that is no status code.
    StatusCode(InvalidStatusCode),
    /// The rewritten text is no target.
    InvalidUri(http::uri::InvalidUri),
    /// A query is not in the form of key and value pairs.
    QueryDecode(serde_urlencoded::de::Error),
    /// The joined query cannot be written as text.
    QueryEncode(serde_urlencoded::ser::Error),
    /// The joined path and query are no path and query.
    PathAndQuery,
    /// The parts of the joined target do not fit together.
    Parts(InvalidUriParts),
}

/// The kinds of [`RewriteError`].
#[derive(Debug, Clone, Copy, PartialEq, Eq, Structural)]
pub enum RewriteErrorKind {
    Engine,
    NotAscii,
    Expression,
    StatusCode,
    InvalidUri,
    QueryDecode,
    QueryEncode,
    PathAndQuery,
    Parts(InvalidUriParts),
}

impl RewriteError {
    /// The kind of this error.
    pub open spec fn spec_kind(&self) -> RewriteErrorKind {
        match self {
            RewriteError::Engine(_) => RewriteErrorKind::Engine,
            RewriteError::NotAscii => RewriteErrorKind::NotAscii,
            RewriteError::Expression(_) => RewriteErrorKind::Expression,
            RewriteError::StatusCode(_) => RewriteErrorKind::StatusCode,
            RewriteError::InvalidUri(_) => RewriteErrorKind::InvalidUri,
            RewriteError::QueryDecode(_) => RewriteErrorKind::QueryDecode,
            RewriteError::QueryEncode(_) => RewriteErrorKind::QueryEncode,
            RewriteError::PathAndQuery => RewriteErrorKind::PathAndQuery,
            RewriteError::Parts(e) => RewriteErrorKind::Parts(*e),
        }
    }

    /// The kind of this error.
    #[verifier::when_used_as_spec(spec_kind)]
    pub fn kind(&self) -> (kind: RewriteErrorKind)
        ensures
            kind == self.spec_kind(),
    {
        match self {
            RewriteError::Engine(_) => RewriteErrorKind::Engine,
            RewriteError::NotAscii => RewriteErrorKind::NotAscii,
            RewriteError::Expression(_) => RewriteErrorKind::Expression,
            RewriteError::StatusCode(_) => RewriteErrorKind::StatusCode,
            RewriteError::InvalidUri(_) => RewriteErrorKind::InvalidUri,
            RewriteError::QueryDecode(_) => RewriteErrorKind::QueryDecode,
            RewriteError::QueryEncode(_) => RewriteErrorKind::QueryEncode,
            RewriteError::PathAndQuery => RewriteErrorKind::PathAndQuery,
            RewriteError::Parts(e) => RewriteErrorKind::Parts(*e),
        }
    }
}

} // verus!
