//! Stages of a chain: a handler with the prefix and the guards that select it and
//! the predicates that send the chain past it.

use vstd::prelude::*;
use vstd::string::{StrSliceExecFns, StringSliceAdditionalSpecFns};
use crate::next::{any_holds, any_next, into_rules, rules_of, Next, Rule};
use crate::response::{Response, ResponseView};
use crate::status::StatusCode;
use crate::text::{
    occurs, occurs_at, occurs_in_the_rest, single_occurs_at, starts_with, strip_prefix,
    without_prefix,
};
use crate::uri::{
    accepts_path_and_query, is_path_and_query, path_ends_at_the_query, path_len,
    path_len_behind, uri_from_parts, uri_path, uri_query, well_formed, Uri, UriView,
};

verus! {

/// A stage as it is declared: a handler factory `S`, a prefix, guards `G` that
/// the host evaluates on a request, and predicates `N` on the handler's response.
#[derive(Clone)]
pub struct Link<S, G, N> {
    prefix: String,
    guards: Vec<G>,
    next: Vec<N>,
    service: S,
}

/// The mathematical value of a [`Link`].
pub struct LinkView<S, G, N> {
    pub prefix: Seq<char>,
    pub guards: Seq<G>,
    pub next: Seq<N>,
    pub service: S,
}

impl<S, G, N> View for Link<S, G, N> {
    type V = LinkView<S, G, N>;

    closed spec fn view(&self) -> LinkView<S, G, N> {
        LinkView {
            prefix: self.prefix@,
            guards: self.guards@,
            next: self.next@,
            service: self.service,
        }
    }
}

impl<S, G, N> Link<S, G, N> {
    /// A stage for a handler factory, with the empty prefix, no guard and no
    /// predicate.
    pub fn new(service: S) -> (link: Self)
        ensures
            link@ == (LinkView {
                prefix: Seq::<char>::empty(),
                guards: Seq::<G>::empty(),
                next: Seq::<N>::empty(),
                service,
            }),
    {
        Link { prefix: String::new(), guards: Vec::new(), next: Vec::new(), service }
    }

    /// Sets the prefix that a request's path must begin with. The handler sees
    /// the path without it.
    pub fn prefix(self, prefix: &str) -> (link: Self)
        ensures
            link@ == (LinkView { prefix: prefix@, ..self@ }),
    {
        Link {
            prefix: prefix.to_owned(),
            guards: self.guards,
            next: self.next,
            service: self.service,
        }
    }

    /// Adds a guard. A request that one of the guards refuses passes this stage by
    /// and goes to the next.
    pub fn guard(self, guard: G) -> (link: Self)
        ensures
            link@ == (LinkView { guards: self@.guards.push(guard), ..self@ }),
    {
        let mut guards = self.guards;
        guards.push(guard);
        Link { prefix: self.prefix, guards, next: self.next, service: self.service }
    }

    /// Adds a predicate on the handler's response. A response of which one of the
    /// predicates holds is set aside for the next stage, if there is one. A stage
    /// without predicates goes on after the status 404 only.
    pub fn next(self, next: N) -> (link: Self)
        ensures
            link@ == (LinkView { next: self@.next.push(next), ..self@ }),
    {
        let mut predicates = self.next;
        predicates.push(next);
        Link { prefix: self.prefix, guards: self.guards, next: predicates, service: self.service }
    }

    /// The handler factory of this stage.
    pub fn factory(&self) -> (service: &S)
        ensures
            *service == self@.service,
    {
        &self.service
    }

    /// Compiles this stage around the handler that its factory gave, and fails
    /// where the factory failed.
    pub fn into_inner<H>(self, service: Result<H, ()>) -> (r: Result<LinkInner<H, G, N>, ()>)
        ensures
            match service {
                Ok(handler) => r matches Ok(inner) && inner@ == compiled(self@, handler),
                Err(_) => r is Err,
            },
    {
        match service {
            Err(e) => Err(e),
            Ok(handler) => {
                let guard = if self.guards.len() == 0 {
                    None
                } else {
                    Some(AllGuard(self.guards))
                };
                let next = into_rules(self.next);
                let inner = LinkInner { prefix: self.prefix, guard, service: handler, next };
                assert(inner@.guards =~= self@.guards);
                Ok(inner)
            },
        }
    }
}

/// The compiled stage for a declared one and its handler.
pub open spec fn compiled<S, G, N, H>(link: LinkView<S, G, N>, handler: H) -> LinkInnerView<
    H,
    G,
    N,
> {
    LinkInnerView {
        prefix: link.prefix,
        guards: link.guards,
        next: rules_of(link.next),
        service: handler,
    }
}

/// Whether every result in a sequence is `true`.
pub open spec fn all_true(checks: Seq<bool>) -> bool {
    forall|i: int| 0 <= i < checks.len() ==> checks[i]
}

/// The guards of a stage, taken together: they accept a request when each of
/// them does.
#[derive(Clone)]
pub struct AllGuard<G>(pub Vec<G>);

impl<G> AllGuard<G> {
    /// Combines the results that the guards gave for a request, one result for
    /// each guard in order. The request is accepted when none is missing and
    /// all are `true`.
    pub fn check(&self, checks: &Vec<bool>) -> (b: bool)
        ensures
            b == (checks@.len() == self.0@.len() && all_true(checks@)),
    {
        if checks.len() != self.0.len() {
            return false;
        }
        let mut i: usize = 0;
        while i < checks.len()
            invariant
                i <= checks.len(),
                forall|j: int| 0 <= j < i ==> checks@[j],
            decreases checks.len() - i,
        {
            if !checks[i] {
                return false;
            }
            i += 1;
        }
        true
    }
}

/// The header lines of the response that stands in where no stage answers.
pub open spec fn default_headers() -> Seq<(Seq<char>, Seq<char>)> {
    seq![("content-type"@, "text/plain; charset=utf-8"@)]
}

/// The response that stands in where no stage answers: status 404, a plain-text
/// content type and the body `Not Found`.
pub open spec fn default_response_view() -> ResponseView {
    ResponseView {
        status: StatusCode::of(404),
        headers: default_headers(),
        body: "Not Found".spec_bytes(),
    }
}

/// The response that stands in where no stage answers.
pub fn default_response() -> (res: Response)
    ensures
        res@ == default_response_view(),
{
    let mut headers: Vec<(String, String)> = Vec::new();
    headers.push(("content-type".to_owned(), "text/plain; charset=utf-8".to_owned()));
    let res = Response {
        status: StatusCode::not_found(),
        headers,
        body: "Not Found".as_bytes_vec(),
    };
    assert(res@.headers =~= default_headers());
    res
}

/// A compiled stage: a live handler `H` with the prefix and guards that select it
/// and the predicates that send the chain past its response.
pub struct LinkInner<H, G, N> {
    prefix: String,
    guard: Option<AllGuard<G>>,
    service: H,
    next: Vec<Rule<N>>,
}

/// The mathematical value of a [`LinkInner`].
pub struct LinkInnerView<H, G, N> {
    pub prefix: Seq<char>,
    pub guards: Seq<G>,
    pub next: Seq<Rule<N>>,
    pub service: H,
}

impl<H, G, N: Next> LinkInnerView<H, G, N> {
    /// Whether this stage is selected for a request: the path begins with the
    /// prefix, every guard gave a result and every result is `true`.
    pub open spec fn selects(self, path: Seq<char>, checks: Seq<bool>) -> bool {
        &&& self.prefix.is_prefix_of(path)
        &&& checks.len() == self.guards.len()
        &&& all_true(checks)
    }

    /// Whether the chain goes on past a response of this stage's handler.
    pub open spec fn continues(self, res: ResponseView) -> bool {
        any_holds(self.next, res)
    }

    /// The target that replaces the request's for the handler, if any does: none
    /// for the empty prefix; else the target whose text of path and query lost
    /// the prefix, where the parts still make a target.
    pub open spec fn forwarded(self, uri: UriView) -> Option<UriView> {
        if self.prefix.len() == 0 {
            None
        } else {
            let rest = match uri.path_and_query {
                Some(text) => match without_prefix(text, self.prefix) {
                    Some(rest) if is_path_and_query(rest) => Some(rest),
                    _ => None,
                },
                None => None,
            };
            match uri_from_parts(uri.scheme, uri.authority, rest) {
                Ok(target) => Some(target),
                Err(_) => None,
            }
        }
    }
}

/// The target that the handler of a stage sees of a request to `uri`.
pub open spec fn seen<H, G, N: Next>(stage: LinkInnerView<H, G, N>, uri: UriView) -> UriView {
    match stage.forwarded(uri) {
        Some(target) => target,
        None => uri,
    }
}

impl<H, G, N> View for LinkInner<H, G, N> {
    type V = LinkInnerView<H, G, N>;

    closed spec fn view(&self) -> LinkInnerView<H, G, N> {
        LinkInnerView {
            prefix: self.prefix@,
            guards: match self.guard {
                Some(all) => all.0@,
                None => Seq::empty(),
            },
            next: self.next@,
            service: self.service,
        }
    }
}

impl<H, G, N> LinkInner<H, G, N> {
    #[verifier::type_invariant]
    spec fn has_predicate(self) -> bool {
        self.next@.len() >= 1
    }
}

impl<H, G, N: Next> LinkInner<H, G, N> {
    /// The live handler of this stage.
    pub fn service(&self) -> (service: &H)
        ensures
            *service == self@.service,
    {
        &self.service
    }

    /// The guards of this stage, in the order of their declaration.
    pub fn guards(&self) -> (guards: &[G])
        ensures
            guards@ == self@.guards,
    {
        match &self.guard {
            Some(all) => all.0.as_slice(),
            None => &[],
        }
    }

    /// Asks each guard of this stage in turn, by `check`, whether it accepts a
    /// request, and collects the answers for `matches`.
    pub fn check_guards<C: Fn(&G) -> bool>(&self, check: &C) -> (checks: Vec<bool>)
        requires
            forall|i: int|
                0 <= i < self@.guards.len() ==> call_requires(
                    *check,
                    (&#[trigger] self@.guards[i],),
                ),
        ensures
            checks@.len() == self@.guards.len(),
            forall|i: int|
                0 <= i < checks@.len() ==> call_ensures(
                    *check,
                    (&self@.guards[i],),
                    #[trigger] checks@[i],
                ),
    {
        let guards = self.guards();
        let mut checks: Vec<bool> = Vec::new();
        let mut i: usize = 0;
        while i < guards.len()
            invariant
                i <= guards.len(),
                guards@ == self@.guards,
                checks@.len() == i,
                forall|j: int|
                    0 <= j < guards@.len() ==> call_requires(*check, (&#[trigger] guards@[j],)),
                forall|j: int|
                    0 <= j < i ==> call_ensures(*check, (&guards@[j],), #[trigger] checks@[j]),
            decreases guards.len() - i,
        {
            let answer = check(&guards[i]);
            checks.push(answer);
            i += 1;
        }
        checks
    }

    /// The predicates of this stage. There is always at least one.
    pub fn rules(&self) -> (rules: &Vec<Rule<N>>)
        ensures
            rules@ == self@.next,
            rules@.len() >= 1,
    {
        proof {
            use_type_invariant(self);
        }
        &self.next
    }

    /// The target that replaces the request's for the handler: the request's
    /// without the prefix. `None` leaves the request's in place.
    pub fn new_uri(&self, uri: &Uri) -> (target: Option<Uri>)
        ensures
            match target {
                Some(t) => Some(t@),
                None => None,
            } == self@.forwarded(uri@),
    {
        if self.prefix.as_str().is_empty() {
            return None;
        }
        let rest = match uri.path_and_query() {
            Some(text) => match strip_prefix(text.as_str(), self.prefix.as_str()) {
                Some(rest) => if accepts_path_and_query(rest) {
                    Some(rest.to_owned())
                } else {
                    None
                },
                None => None,
            },
            None => None,
        };
        match Uri::from_parts(uri.scheme().clone(), uri.authority().clone(), rest) {
            Ok(target) => Some(target),
            Err(_) => None,
        }
    }

    /// Whether this stage is selected for a request with the given path, for
    /// which the guards gave the given results.
    pub fn matches(&self, path: &str, checks: &Vec<bool>) -> (b: bool)
        ensures
            b == self@.selects(path@, checks@),
    {
        starts_with(path, self.prefix.as_str()) && match &self.guard {
            Some(all) => all.check(checks),
            None => checks.len() == 0,
        }
    }

    /// Whether the chain goes on past a response of this stage's handler.
    pub fn go_next(&self, res: &Response) -> (b: bool)
        ensures
            b == self@.continues(res@),
    {
        any_next(&self.next, res)
    }

    /// Prepares the one call of this stage's handler for a request: the target
    /// that the handler is to see. A stage that is not selected gives nothing:
    /// its handler is not called and it has no response.
    pub fn call_once(&self, uri: Uri, checks: &Vec<bool>) -> (r: Option<Uri>)
        ensures
            match r {
                Some(target) => {
                    &&& self@.selects(uri_path(uri@), checks@)
                    &&& target@ == seen(self@, uri@)
                    &&& self@.prefix.len() == 0 ==> target@ == uri@
                    &&& self@.prefix.len() > 0 && rest_is_accepted(self@, uri@) ==> strips(
                        self@,
                        uri@,
                        target@,
                    )
                },
                None => !self@.selects(uri_path(uri@), checks@),
            },
    {
        let path = uri.path();
        if !self.matches(path.as_str(), checks) {
            return None;
        }
        proof {
            if self@.prefix.len() > 0 && rest_is_accepted(self@, uri@) {
                let suffix = uri_path(uri@).skip(self@.prefix.len() as int);
                assert(uri_path(uri@) =~= self@.prefix + suffix);
                handler_sees_the_rest(self@, uri@, suffix);
            }
        }
        match self.new_uri(&uri) {
            Some(target) => Some(target),
            None => Some(uri),
        }
    }
}

/// Selection: a stage is selected for a request when the request's path begins
/// with the stage's prefix and each of its guards accepts the request. A stage
/// without guards is selected by the prefix alone.
pub proof fn selection_is_conjunction<H, G, N: Next>(
    stage: LinkInnerView<H, G, N>,
    path: Seq<char>,
    checks: Seq<bool>,
)
    requires
        checks.len() == stage.guards.len(),
    ensures
        stage.selects(path, checks) <==> stage.prefix.is_prefix_of(path) && forall|i: int|
            0 <= i < stage.guards.len() ==> checks[i],
        stage.guards.len() == 0 ==> stage.selects(path, checks) == stage.prefix.is_prefix_of(path),
        stage.prefix.len() == 0 && stage.guards.len() == 0 ==> stage.selects(path, checks),
{
}

/// Default continuation: a stage that declares no predicate goes on past the
/// responses with status 404, and past no others.
pub proof fn undeclared_means_not_found<S, G, N: Next, H>(
    link: LinkView<S, G, N>,
    handler: H,
    res: ResponseView,
)
    requires
        link.next.len() == 0,
    ensures
        compiled(link, handler).continues(res) <==> res.status == StatusCode::of(404),
        compiled(link, handler).next.len() == 1,
{
    let stage = compiled(link, handler);
    assert(stage.next[0] == Rule::<N>::Status(crate::next::IsStatus(StatusCode::of(404))));
    if res.status == StatusCode::of(404) {
        assert(stage.next[0].holds(res));
    }
}

/// A stage with declared predicates goes on past the responses of which one of
/// them holds, and past no others.
pub proof fn declared_predicates_decide<S, G, N: Next, H>(
    link: LinkView<S, G, N>,
    handler: H,
    res: ResponseView,
)
    requires
        link.next.len() > 0,
    ensures
        compiled(link, handler).continues(res) <==> any_holds(link.next, res),
        compiled(link, handler).next.len() == link.next.len(),
{
    let stage = compiled(link, handler);
    if any_holds(link.next, res) {
        let i = choose|i: int| 0 <= i < link.next.len() && (#[trigger] link.next[i]).holds(res);
        assert(stage.next[i].holds(res));
    }
    if stage.continues(res) {
        let i = choose|i: int| 0 <= i < stage.next.len() && (#[trigger] stage.next[i]).holds(res);
        assert(link.next[i].holds(res));
    }
}

/// Whether what is left of the text of path and query of a request, once the
/// prefix of a stage is taken away, is path and query to the outside parser.
pub open spec fn rest_is_accepted<H, G, N: Next>(
    stage: LinkInnerView<H, G, N>,
    uri: UriView,
) -> bool {
    uri.path_and_query matches Some(text) ==> (stage.prefix.is_prefix_of(text)
        ==> is_path_and_query(text.skip(stage.prefix.len() as int)))
}

/// Whether `target` is the target of a request to `uri` without the prefix of a
/// stage: its path is what stands behind the prefix in the path of the request,
/// where an empty rest may read `/`; and where the text of the request begins
/// with a path, its query, scheme and authority are those of the request.
pub open spec fn strips<H, G, N: Next>(
    stage: LinkInnerView<H, G, N>,
    uri: UriView,
    target: UriView,
) -> bool {
    let suffix = uri_path(uri).skip(stage.prefix.len() as int);
    &&& suffix.len() > 0 ==> uri_path(target) == suffix
    &&& uri_path(target) == suffix || (suffix.len() == 0 && uri_path(target) == seq!['/'])
    &&& uri_query(uri) is None && uri.scheme is None ==> uri_path(target) == suffix
    &&& has_text_path(uri) ==> {
        &&& uri_query(target) == uri_query(uri)
        &&& target.scheme == uri.scheme
        &&& target.authority == uri.authority
    }
}

/// Whether the text of a target begins with a path.
pub open spec fn has_text_path(uri: UriView) -> bool {
    uri.path_and_query matches Some(text) && path_len(text) > 0
}

/// Prefix stripping: of a request whose path is the prefix `P` of a stage and
/// then `suffix`, where the rest behind `P` is path and query to the outside
/// parser, the handler of the stage sees the path `suffix`, and the query, the
/// scheme and the authority of the request. An empty `suffix` may read `/`: it
/// does where a scheme stands beside it, or a query behind a path.
pub proof fn handler_sees_the_rest<H, G, N: Next>(
    stage: LinkInnerView<H, G, N>,
    uri: UriView,
    suffix: Seq<char>,
)
    requires
        well_formed(uri),
        stage.prefix.len() > 0,
        uri_path(uri) == stage.prefix + suffix,
        rest_is_accepted(stage, uri),
    ensures
        suffix.len() > 0 ==> uri_path(seen(stage, uri)) == suffix,
        uri_path(seen(stage, uri)) == suffix || (suffix.len() == 0 && uri_path(seen(stage, uri))
            == seq!['/']),
        uri_query(uri) is None && uri.scheme is None ==> uri_path(seen(stage, uri)) == suffix,
        has_text_path(uri) ==> {
            &&& uri_query(seen(stage, uri)) == uri_query(uri)
            &&& seen(stage, uri).scheme == uri.scheme
            &&& seen(stage, uri).authority == uri.authority
        },
{
    let q = seq!['?'];
    let prefix = stage.prefix;
    assert((prefix + suffix).len() > 0);
    let text = uri.path_and_query->Some_0;
    path_ends_at_the_query(text);
    let path = text.take(path_len(text));
    if path.len() > 0 {
        assert(path == prefix + suffix);
        let rest = text.skip(prefix.len() as int);
        assert(prefix =~= text.subrange(0, prefix.len() as int)) by {
            assert forall|i: int| 0 <= i < prefix.len() implies prefix[i] == text[i] by {
                assert(path[i] == prefix[i]);
                assert(path[i] == text[i]);
            }
        }
        assert(prefix.is_prefix_of(text));
        assert(text =~= prefix + rest);
        if occurs(prefix, q) {
            let at = choose|at: int| occurs_at(prefix, q, at);
            single_occurs_at(prefix, '?', at);
            single_occurs_at(path, '?', at);
            assert(path[at] == prefix[at]);
            assert(occurs_at(path, q, at));
        }
        path_len_behind(prefix, rest);
        assert(rest.take(path_len(rest)) =~= suffix) by {
            assert forall|i: int| 0 <= i < path_len(rest) implies rest[i] == suffix[i] by {
                assert(rest[i] == text[i + prefix.len()]);
                assert(path[i + prefix.len()] == text[i + prefix.len()]);
                assert(path[i + prefix.len()] == suffix[i]);
            }
        }
        if occurs(rest, seq!['#']) {
            occurs_in_the_rest(text, seq!['#'], prefix.len() as int);
        }
        assert(stage.forwarded(uri) == Some(UriView { path_and_query: Some(rest), ..uri }));
        if occurs(rest, q) {
            assert(rest.skip(path_len(rest) + 1) =~= text.skip(path_len(text) + 1));
        }
    } else {
        assert(prefix + suffix =~= seq!['/']);
        assert(prefix =~= seq!['/']);
        assert(suffix.len() == 0);
        if prefix.is_prefix_of(text) {
            assert(text[0] == prefix[0]);
        }
        assert(stage.forwarded(uri) == if uri.scheme is None {
            Some(UriView { path_and_query: None, ..uri })
        } else {
            None
        });
    }
}

/// Without a prefix, the handler sees the request's target as it is.
pub proof fn empty_prefix_leaves_the_target<H, G, N: Next>(
    stage: LinkInnerView<H, G, N>,
    uri: UriView,
)
    requires
        stage.prefix.len() == 0,
    ensures
        stage.forwarded(uri) is None,
{
}

} // verus!
