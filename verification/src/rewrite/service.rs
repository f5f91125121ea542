//! The rewrite service: a handler behind a rule engine.

use std::rc::Rc;
use mod_rewrite::context::RequestCtx;
use mod_rewrite::error::EngineError;
use vstd::prelude::*;
use crate::response::Response;
use crate::rewrite::error::{RewriteError, RewriteErrorKind};
use crate::rewrite::rewrite::{
    resolves, without_empty_query, Rewrite, RewriteEngine, Rewritten,
};
use crate::rewrite::util::{join_uri, joined};
use crate::uri::{parse_uri, uri_from_parts, uri_of_text, uri_text, Uri, UriView};

verus! {

/// What a rewrite service holds: the handler that it stands before, and the
/// engine.
pub struct RewriteInner<S> {
    pub service: Rc<S>,
    pub engine: Rc<RewriteEngine>,
}

/// An assembled rewrite service, shared by its clones.
pub struct RewriteService<S>(pub Rc<RewriteInner<S>>);

/// What becomes of a request behind the rules.
#[derive(Debug, Clone, PartialEq, Eq)]
pub enum Routed {
    /// The request is answered with this response, and the handler is not called.
    Respond(Response),
    /// The handler is called, with this target in place of the request's.
    Forward(Uri),
}

/// Whether `r` is what a rewrite means for a request to `uri`: a response is
/// the answer as it is; a rewritten target is read as a target, whose parts
/// must fit, and joined with the request's; an error stays one.
pub open spec fn routes(
    rewrite: Result<Rewrite, RewriteError>,
    uri: UriView,
    r: Result<Routed, RewriteError>,
) -> bool {
    match rewrite {
        Err(e) => r == Err::<Routed, RewriteError>(e),
        Ok(Rewrite::Redirect(res)) => r == Ok::<Routed, RewriteError>(Routed::Respond(res)),
        Ok(Rewrite::Response(res)) => r == Ok::<Routed, RewriteError>(Routed::Respond(res)),
        Ok(Rewrite::Uri(text)) => match uri_of_text(text@) {
            None => r matches Err(e) && e.kind() == RewriteErrorKind::InvalidUri,
            Some(parts) => match uri_from_parts(
                parts.scheme,
                parts.authority,
                parts.path_and_query,
            ) {
                Err(unfit) => r matches Err(e) && e.kind() == RewriteErrorKind::Parts(unfit),
                Ok(after) => match joined(uri, after) {
                    Ok(target) => r matches Ok(Routed::Forward(t)) && t@ == target,
                    Err(kind) => r matches Err(e) && e.kind() == kind,
                },
            },
        },
    }
}

/// Says what becomes of a request to `uri` for which the rules gave `rewrite`.
pub fn route(rewrite: Rewrite, uri: &Uri) -> (r: Result<Routed, RewriteError>)
    ensures
        routes(Ok(rewrite), uri@, r),
{
    match rewrite {
        Rewrite::Redirect(res) => Ok(Routed::Respond(res)),
        Rewrite::Response(res) => Ok(Routed::Respond(res)),
        Rewrite::Uri(text) => {
            let parts = match parse_uri(text.as_str()) {
                Ok(parts) => parts,
                Err(e) => return Err(RewriteError::InvalidUri(e)),
            };
            let after = match Uri::from_parts(parts.0, parts.1, parts.2) {
                Ok(after) => after,
                Err(e) => return Err(RewriteError::Parts(e)),
            };
            match join_uri(uri, &after) {
                Ok(target) => Ok(Routed::Forward(target)),
                Err(e) => Err(e),
            }
        },
    }
}

impl<S> std::ops::Deref for RewriteService<S> {
    type Target = RewriteInner<S>;

    /// The handler and the engine of this service.
    fn deref(&self) -> (inner: &RewriteInner<S>)
        ensures
            *inner == *self.0,
    {
        &self.0
    }
}

impl<S> RewriteService<S> {

    /// Decides on a request to `uri`: runs the rules on the text of the target,
    /// with the values of the request that conditions may read, and says what
    /// becomes of the request. Whatever the engine's verdict is, the result is
    /// what `resolve` and `route` make of it. With an engine without rules the
    /// result is what `route` makes of the request's own target.
    pub fn call(&self, uri: &Uri, request: RequestCtx) -> (r: Result<Routed, RewriteError>)
        ensures
            exists|outcome: Result<Rewritten, EngineError>, rewrite: Result<Rewrite, RewriteError>|
                resolves(outcome, rewrite) && routes(rewrite, uri@, r),
            self.0.engine.bounds().len() == 0 ==> exists|text: String|
                text@ == without_empty_query(uri_text(uri@)) && #[trigger] routes(
                    Ok(Rewrite::Uri(text)),
                    uri@,
                    r,
                ),
    {
        let text = uri.text();
        let rewrite = self.0.engine.rewrite(text.as_str(), request);
        let ghost outcome = choose|outcome: Result<Rewritten, EngineError>|
            resolves(outcome, rewrite);
        let r = match rewrite {
            Ok(rewrite) => route(rewrite, uri),
            Err(e) => Err(e),
        };
        assert(resolves(outcome, rewrite) && routes(rewrite, uri@, r));
        r
    }
}

} // verus!
