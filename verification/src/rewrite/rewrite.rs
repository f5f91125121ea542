//! The rule engine, and what its verdicts mean for a request.

use mod_rewrite::context::{EngineCtx, RequestCtx, ServerCtx};
use mod_rewrite::error::{EngineError, ExpressionError};
use vstd::prelude::*;
use crate::response::{Response, ResponseView};
use crate::rewrite::error::{RewriteError, RewriteErrorKind};
use crate::status::{is_status_code, StatusCode};
use crate::uri::path_len;

verus! {

#[verifier::external_type_specification]
#[verifier::external_body]
pub struct ExEngine(mod_rewrite::Engine);

#[verifier::external_type_specification]
#[verifier::external_body]
pub struct ExServerCtx(mod_rewrite::context::ServerCtx);

#[verifier::external_type_specification]
#[verifier::external_body]
pub struct ExRequestCtx(mod_rewrite::context::RequestCtx);

/// What the rules made of a target.
#[derive(Debug, Clone, PartialEq, Eq)]
pub enum Rewritten {
    /// The target as the rules left it.
    Uri(String),
    /// The target as the rules left it, marked as final by a rule.
    EndUri(String),
    /// A redirect to a location, with the number of its status.
    Redirect(String, u16),
    /// An answer that holds only the number of a status.
    StatusCode(u16),
}

/// What a rewrite means for a request.
#[derive(Debug, Clone, PartialEq, Eq)]
pub enum Rewrite {
    /// The request goes on with this target.
    Uri(String),
    /// The request is answered with this redirect.
    Redirect(Response),
    /// The request is answered with this response.
    Response(Response),
}

/// The redirect to a location: the status, the header line `location` and an
/// empty body.
pub open spec fn redirect_to(location: Seq<char>, code: u16) -> ResponseView {
    ResponseView {
        status: StatusCode::of(code),
        headers: seq![("location"@, location)],
        body: Seq::empty(),
    }
}

/// The answer that holds only a status.
pub open spec fn bare_status(code: u16) -> ResponseView {
    ResponseView { status: StatusCode::of(code), headers: Seq::empty(), body: Seq::empty() }
}

/// Whether `r` is what a verdict of the engine means for a request: an error of
/// the engine stays one; a target stays a target, final or not; a redirect and
/// a bare status become responses, and fail where the number is no status code.
pub open spec fn resolves(
    outcome: Result<Rewritten, EngineError>,
    r: Result<Rewrite, RewriteError>,
) -> bool {
    match outcome {
        Err(e) => r == Err::<Rewrite, RewriteError>(RewriteError::Engine(e)),
        Ok(Rewritten::Uri(uri)) => r matches Ok(Rewrite::Uri(text)) && text@ == uri@,
        Ok(Rewritten::EndUri(uri)) => r matches Ok(Rewrite::Uri(text)) && text@ == uri@,
        Ok(Rewritten::Redirect(location, code)) => if is_status_code(code) {
            r matches Ok(Rewrite::Redirect(res)) && res@ == redirect_to(location@, code)
        } else {
            r matches Err(e) && e.kind() == RewriteErrorKind::StatusCode
        },
        Ok(Rewritten::StatusCode(code)) => if is_status_code(code) {
            r matches Ok(Rewrite::Response(res)) && res@ == bare_status(code)
        } else {
            r matches Err(e) && e.kind() == RewriteErrorKind::StatusCode
        },
    }
}

/// Says what a verdict of the engine means for a request.
pub fn resolve(outcome: Result<Rewritten, EngineError>) -> (r: Result<Rewrite, RewriteError>)
    ensures
        resolves(outcome, r),
{
    match outcome {
        Err(e) => Err(RewriteError::Engine(e)),
        Ok(Rewritten::Uri(uri)) => Ok(Rewrite::Uri(uri)),
        Ok(Rewritten::EndUri(uri)) => Ok(Rewrite::Uri(uri)),
        Ok(Rewritten::Redirect(location, code)) => match StatusCode::from_u16(code) {
            Ok(status) => {
                let mut headers: Vec<(String, String)> = Vec::new();
                headers.push(("location".to_owned(), location));
                let res = Response { status, headers, body: Vec::new() };
                assert(res@.headers =~= seq![("location"@, location@)]);
                Ok(Rewrite::Redirect(res))
            },
            Err(e) => Err(RewriteError::StatusCode(e)),
        },
        Ok(Rewritten::StatusCode(code)) => match StatusCode::from_u16(code) {
            Ok(status) => Ok(Rewrite::Response(Response::new(status))),
            Err(e) => Err(RewriteError::StatusCode(e)),
        },
    }
}

/// The number of passes over its rules that a group of rules starts with.
pub const DEFAULT_MAX_ITERATIONS: usize = 10;

/// What an engine holds: for each of its groups of rules, in the order in which
/// they were added, the number of passes after which the group gives up.
pub uninterp spec fn engine_bounds(engine: mod_rewrite::Engine) -> Seq<usize>;

/// What a server context holds: the values that are set, each under the name of
/// its variable.
pub uninterp spec fn server_values(ctx: ServerCtx) -> Map<Seq<char>, Seq<char>>;

/// The number of groups of rules that `mod_rewrite::Engine::add_rules` reads from
/// a text; `None` where it rejects the text.
pub uninterp spec fn rule_groups(rules: Seq<char>) -> Option<nat>;

/// The values of a server context in which none is set.
pub open spec fn no_values() -> Map<Seq<char>, Seq<char>> {
    Map::empty()
}

/// The bounds of `n` groups that all give up after `bound` passes.
pub open spec fn all_bounded(n: nat, bound: usize) -> Seq<usize> {
    Seq::new(n, |i: int| bound)
}

/// Trusted: `mod_rewrite::Engine::default`, an engine without groups of rules.
#[verifier::external_body]
fn engine_default() -> (engine: mod_rewrite::Engine)
    ensures
        engine_bounds(engine) == Seq::<usize>::empty(),
{
    mod_rewrite::Engine::default()
}

/// Trusted: `mod_rewrite::context::ServerCtx::default`, a context in which no
/// value is set.
#[verifier::external_body]
fn server_ctx_default() -> (ctx: ServerCtx)
    ensures
        server_values(ctx) == no_values(),
{
    ServerCtx::default()
}

/// Trusted: `mod_rewrite::Engine::max_iterations`, which gives every group that
/// the engine holds the new bound on its passes, and adds or drops none.
#[verifier::external_body]
fn engine_max_iterations(
    engine: mod_rewrite::Engine,
    iterations: usize,
) -> (bounded: mod_rewrite::Engine)
    ensures
        engine_bounds(bounded) == all_bounded(engine_bounds(engine).len(), iterations),
{
    engine.max_iterations(iterations)
}

/// Trusted: `mod_rewrite::Engine::add_rules`, which parses the text and, where it
/// is a rule set, appends its groups, each with the bound that a group starts
/// with. Where the text is rejected the engine is left as it was. The parser
/// reads nothing but the text. It takes positions of characters for positions
/// of bytes, and on a text with a character outside ASCII it may panic or not
/// return; such texts are left out.
#[verifier::external_body]
fn engine_add_rules(engine: &mut mod_rewrite::Engine, rules: &str) -> (r: Result<
    (),
    ExpressionError,
>)
    requires
        vstd::string::is_ascii(rules),
    ensures
        match r {
            Ok(_) => rule_groups(rules@) matches Some(added) && engine_bounds(*final(engine))
                == engine_bounds(*old(engine)) + all_bounded(added, DEFAULT_MAX_ITERATIONS),
            Err(_) => rule_groups(rules@) is None && *final(engine) == *old(engine),
        },
{
    engine.add_rules(rules).map(|_| ())
}

/// The text of a target as an engine without rules hands it back: the text as
/// it is, but without a `?` behind which nothing stands.
pub open spec fn without_empty_query(uri: Seq<char>) -> Seq<char> {
    if path_len(uri) + 1 == uri.len() {
        uri.take(path_len(uri))
    } else {
        uri
    }
}

/// Trusted: `mod_rewrite::Engine::rewrite_ctx`, with a context made of the
/// environment, the time, the request and the server. Conditions of the rules
/// read the environment, the clock and the disk, so nothing is said of the
/// verdict of an engine that holds rules. An engine without groups of rules asks
/// no condition: it splits the text at the first `?` and joins it again, which
/// drops a `?` behind which nothing stands.
#[verifier::external_body]
fn engine_rewrite(
    engine: &mod_rewrite::Engine,
    server: &ServerCtx,
    request: RequestCtx,
    uri: &str,
) -> (r: Result<Rewritten, EngineError>)
    ensures
        match r {
            Ok(Rewritten::Uri(text)) => engine_bounds(*engine).len() == 0 ==> text@
                == without_empty_query(uri@),
            _ => engine_bounds(*engine).len() > 0,
        },
{
    let mut ctx =
        EngineCtx::default().with_env().with_time().with_ctx(request).with_ctx(server.clone());
    Ok(match engine.rewrite_ctx(uri, &mut ctx)? {
        mod_rewrite::Rewrite::Uri(uri) => Rewritten::Uri(uri),
        mod_rewrite::Rewrite::EndUri(uri) => Rewritten::EndUri(uri),
        mod_rewrite::Rewrite::Redirect(uri, status) => Rewritten::Redirect(uri, status),
        mod_rewrite::Rewrite::StatusCode(status) => Rewritten::StatusCode(status),
    })
}

/// A rule engine with the values of the server that its conditions may read.
pub struct RewriteEngine {
    engine: mod_rewrite::Engine,
    srv_ctx: ServerCtx,
}

impl RewriteEngine {
    /// The values of the server that conditions may read.
    pub closed spec fn server(&self) -> ServerCtx {
        self.srv_ctx
    }

    /// The rules of the engine.
    pub closed spec fn rules(&self) -> mod_rewrite::Engine {
        self.engine
    }

    /// For each group of rules of the engine, in the order in which they were
    /// added, the number of passes after which the group gives up.
    pub open spec fn bounds(&self) -> Seq<usize> {
        engine_bounds(self.rules())
    }

    /// An engine without rules, for a server of which no value is set.
    pub fn new() -> (engine: Self)
        ensures
            engine.bounds() == Seq::<usize>::empty(),
            server_values(engine.server()) == no_values(),
    {
        RewriteEngine { engine: engine_default(), srv_ctx: server_ctx_default() }
    }

    /// Sets the number of passes after which the groups of rules give up: those
    /// that the engine holds now. Rules that are added later start with
    /// [`DEFAULT_MAX_ITERATIONS`].
    pub fn max_iterations(self, iterations: usize) -> (engine: Self)
        ensures
            engine.bounds() == all_bounded(self.bounds().len(), iterations),
            engine.server() == self.server(),
    {
        RewriteEngine {
            engine: engine_max_iterations(self.engine, iterations),
            srv_ctx: self.srv_ctx,
        }
    }

    /// Sets the values of the server that conditions may read.
    pub fn server_context(self, ctx: ServerCtx) -> (engine: Self)
        ensures
            engine.server() == ctx,
            engine.rules() == self.rules(),
    {
        RewriteEngine { engine: self.engine, srv_ctx: ctx }
    }

    /// Parses rules and appends them to those of the engine, in groups that each
    /// start with [`DEFAULT_MAX_ITERATIONS`]. It succeeds on the texts in ASCII
    /// that the parser of rules accepts. A text with a character outside ASCII
    /// is refused with the error `NotAscii` before the parser sees it; on any
    /// other text that is no rule set the error is of the kind `Expression`.
    /// Where it fails the engine is left as it was.
    pub fn add_rules(&mut self, rules: &str) -> (r: Result<(), RewriteError>)
        ensures
            match r {
                Ok(_) => {
                    &&& vstd::string::is_ascii(rules)
                    &&& rule_groups(rules@) matches Some(added)
                    &&& final(self).bounds() == old(self).bounds() + all_bounded(
                        added,
                        DEFAULT_MAX_ITERATIONS,
                    )
                },
                Err(e) => final(self).rules() == old(self).rules() && if vstd::string::is_ascii(
                    rules,
                ) {
                    rule_groups(rules@) is None && e.kind() == RewriteErrorKind::Expression
                } else {
                    e.kind() == RewriteErrorKind::NotAscii
                },
            },
            final(self).server() == old(self).server(),
    {
        if !rules.is_ascii() {
            return Err(RewriteError::NotAscii);
        }
        match engine_add_rules(&mut self.engine, rules) {
            Ok(()) => Ok(()),
            Err(e) => Err(RewriteError::Expression(e)),
        }
    }

    /// Runs the rules on the text of a request's target, with the values of the
    /// request that conditions may read. Whatever the engine's verdict is, the
    /// result is what `resolve` makes of it. An engine without rules succeeds
    /// and leaves the target as it is, but for a `?` behind which nothing stands.
    pub fn rewrite(&self, uri: &str, request: RequestCtx) -> (r: Result<Rewrite, RewriteError>)
        ensures
            exists|outcome: Result<Rewritten, EngineError>| resolves(outcome, r),
            self.bounds().len() == 0 ==> (r matches Ok(Rewrite::Uri(text)) && text@
                == without_empty_query(uri@)),
    {
        let outcome = engine_rewrite(&self.engine, &self.srv_ctx, request, uri);
        let r = resolve(outcome);
        assert(resolves(outcome, r));
        r
    }
}

impl Default for RewriteEngine {
    /// An engine without rules, for a server of which no value is set.
    fn default() -> (engine: Self)
        ensures
            engine.bounds() == Seq::<usize>::empty(),
            server_values(engine.server()) == no_values(),
    {
        RewriteEngine::new()
    }
}

} // verus!
