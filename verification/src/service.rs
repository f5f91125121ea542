//! The dispatcher: the compiled stages of a chain, and the decisions that take
//! one request through them.
//!
//! What a dispatch comes to is written down once, as `run`: the stages are tried
//! in order, a stage that is not selected is passed by, the response of a
//! selected stage is returned unless its predicates hold of it and another stage
//! follows, and where no stage answers the default response stands in.
//!
//! A host whose handlers answer later drives the dispatch step by step: the
//! dispatcher says which stage is to be tried, learns what the stage's guards
//! said of the request and what its handler gave, and says what comes next. A
//! host whose handlers answer at once hands them to `call`, which runs the
//! whole dispatch.

use std::rc::Rc;
use vstd::prelude::*;
use crate::link::{default_response, default_response_view, seen, LinkInner, LinkInnerView};
use crate::next::Next;
use crate::response::{Response, ResponseView};
use crate::uri::{uri_path, Uri, UriView};

verus! {

/// Where the dispatch of one request stands.
#[derive(Debug, Clone, PartialEq, Eq)]
pub enum State {
    /// The stage at this position is tried next: the host evaluates its guards
    /// on the request.
    Trying(usize),
    /// The stage at `index` is selected: the host calls its handler. The handler
    /// sees `uri` in place of the request's target where it is `Some`.
    Calling { index: usize, uri: Option<Uri> },
    /// The response that the host just obtained is the result, as it is.
    Returned,
    /// The error that the host just obtained from a handler is the result, as
    /// it is.
    Failed,
    /// No stage answered: the result is the default response.
    Exhausted,
}

/// The mathematical value of a [`State`].
pub enum StateView {
    Trying(int),
    Calling { index: int, uri: Option<UriView> },
    Returned,
    Failed,
    Exhausted,
}

impl View for State {
    type V = StateView;

    open spec fn view(&self) -> StateView {
        match self {
            State::Trying(index) => StateView::Trying(*index as int),
            State::Calling { index, uri } => StateView::Calling {
                index: *index as int,
                uri: match uri {
                    Some(u) => Some(u@),
                    None => None,
                },
            },
            State::Returned => StateView::Returned,
            State::Failed => StateView::Failed,
            State::Exhausted => StateView::Exhausted,
        }
    }
}

/// The state in which the dispatch of a request begins.
pub open spec fn start_state<H, G, N>(stages: Seq<LinkInnerView<H, G, N>>) -> StateView {
    if stages.len() > 0 {
        StateView::Trying(0)
    } else {
        StateView::Exhausted
    }
}

/// The state after the stage at `index` is passed by or fell through.
pub open spec fn advance<H, G, N>(stages: Seq<LinkInnerView<H, G, N>>, index: int) -> StateView {
    if index + 1 < stages.len() {
        StateView::Trying(index + 1)
    } else {
        StateView::Exhausted
    }
}

/// The state after the guards of the stage at `index` gave `checks` for a
/// request to `uri`: the stage's handler is called where the stage is selected,
/// else the stage is passed by.
pub open spec fn after_check<H, G, N: Next>(
    stages: Seq<LinkInnerView<H, G, N>>,
    index: int,
    uri: UriView,
    checks: Seq<bool>,
) -> StateView {
    if !(0 <= index < stages.len()) {
        StateView::Exhausted
    } else if stages[index].selects(uri_path(uri), checks) {
        StateView::Calling { index, uri: stages[index].forwarded(uri) }
    } else {
        advance(stages, index)
    }
}

/// Whether the response of the stage at `index` is set aside: the stage's
/// predicates hold of it and another stage follows.
pub open spec fn falls_through<H, G, N: Next>(
    stages: Seq<LinkInnerView<H, G, N>>,
    index: int,
    res: ResponseView,
) -> bool {
    &&& 0 <= index
    &&& index + 1 < stages.len()
    &&& stages[index].continues(res)
}

/// The state after the handler of the stage at `index` gave `reply`: an error
/// ends the dispatch, and so does a response that is not set aside.
pub open spec fn after_response<H, G, N: Next, E>(
    stages: Seq<LinkInnerView<H, G, N>>,
    index: int,
    reply: Result<ResponseView, E>,
) -> StateView {
    match reply {
        Err(_) => StateView::Failed,
        Ok(res) => if falls_through(stages, index, res) {
            StateView::Trying(index + 1)
        } else {
            StateView::Returned
        },
    }
}

/// The mathematical value of what a handler gave.
pub open spec fn reply_view<E>(reply: Result<Response, E>) -> Result<ResponseView, E> {
    match reply {
        Ok(res) => Ok(res@),
        Err(e) => Err(e),
    }
}

/// How the dispatch of a request ends.
pub enum Outcome<E> {
    /// The handler of the stage at `index` gave `response`, and it is returned.
    Returned { index: int, response: ResponseView },
    /// The handler of the stage at `index` gave `error`, and it is returned.
    Failed { index: int, error: E },
    /// No stage answered.
    Exhausted,
}

impl<E> Outcome<E> {
    /// What the host hands back: the response or the error of a handler, or the
    /// default response.
    pub open spec fn result(self) -> Result<ResponseView, E> {
        match self {
            Outcome::Returned { response, .. } => Ok(response),
            Outcome::Failed { error, .. } => Err(error),
            Outcome::Exhausted => Ok(default_response_view()),
        }
    }
}

/// Whether what the handler of the stage at `index` gave sends the dispatch on
/// to the next stage.
pub open spec fn sends_on<H, G, N: Next, E>(
    stages: Seq<LinkInnerView<H, G, N>>,
    index: int,
    reply: Result<ResponseView, E>,
) -> bool {
    reply matches Ok(res) && falls_through(stages, index, res)
}

/// How the dispatch of a request to `uri` ends when it stands before the stage at
/// `from`, where `checks(i)` is what the guards of stage `i` say of the request
/// and `respond(i)` is what its handler gives.
pub open spec fn run<H, G, N: Next, E>(
    stages: Seq<LinkInnerView<H, G, N>>,
    from: int,
    uri: UriView,
    checks: spec_fn(int) -> Seq<bool>,
    respond: spec_fn(int) -> Result<ResponseView, E>,
) -> Outcome<E>
    decreases stages.len() - from,
{
    if !(0 <= from < stages.len()) {
        Outcome::Exhausted
    } else if !stages[from].selects(uri_path(uri), checks(from)) {
        run(stages, from + 1, uri, checks, respond)
    } else {
        match respond(from) {
            Err(error) => Outcome::Failed { index: from, error },
            Ok(response) => if falls_through(stages, from, response) {
                run(stages, from + 1, uri, checks, respond)
            } else {
                Outcome::Returned { index: from, response }
            },
        }
    }
}

/// The stages whose handlers are called, in order, in the dispatch that `run`
/// describes.
pub open spec fn invoked<H, G, N: Next, E>(
    stages: Seq<LinkInnerView<H, G, N>>,
    from: int,
    uri: UriView,
    checks: spec_fn(int) -> Seq<bool>,
    respond: spec_fn(int) -> Result<ResponseView, E>,
) -> Seq<int>
    decreases stages.len() - from,
{
    if !(0 <= from < stages.len()) {
        Seq::empty()
    } else if !stages[from].selects(uri_path(uri), checks(from)) {
        invoked(stages, from + 1, uri, checks, respond)
    } else if sends_on(stages, from, respond(from)) {
        seq![from] + invoked(stages, from + 1, uri, checks, respond)
    } else {
        seq![from]
    }
}

/// The compiled stages of a chain, in the order of their declaration.
pub struct ChainInner<H, G, N> {
    links: Vec<LinkInner<H, G, N>>,
    body_buffer_size: usize,
}

impl<H, G, N> View for ChainInner<H, G, N> {
    type V = Seq<LinkInnerView<H, G, N>>;

    closed spec fn view(&self) -> Seq<LinkInnerView<H, G, N>> {
        self.links@.map_values(|link: LinkInner<H, G, N>| link@)
    }
}

impl<H, G, N: Next> ChainInner<H, G, N> {
    /// A dispatcher over compiled stages.
    pub fn new(links: Vec<LinkInner<H, G, N>>, body_buffer_size: usize) -> (inner: Self)
        ensures
            inner@ == links@.map_values(|link: LinkInner<H, G, N>| link@),
            inner.buffer_size() == body_buffer_size,
    {
        ChainInner { links, body_buffer_size }
    }

    /// The size reserved for buffering a response body, in bytes.
    pub closed spec fn buffer_size(&self) -> usize {
        self.body_buffer_size
    }

    /// The size reserved for buffering a response body, in bytes. The dispatch
    /// does not read it.
    pub fn body_buffer_size(&self) -> (size: usize)
        ensures
            size == self.buffer_size(),
    {
        self.body_buffer_size
    }

    /// The number of stages.
    pub fn len(&self) -> (n: usize)
        ensures
            n == self@.len(),
    {
        self.links.len()
    }

    /// The stage at a position.
    pub fn link(&self, index: usize) -> (link: Option<&LinkInner<H, G, N>>)
        ensures
            index < self@.len() ==> (link matches Some(l) && l@ == self@[index as int]),
            index >= self@.len() ==> link is None,
    {
        if index < self.links.len() {
            Some(&self.links[index])
        } else {
            None
        }
    }

    /// Begins the dispatch of a request.
    pub fn start(&self) -> (state: State)
        ensures
            state@ == start_state(self@),
    {
        if self.links.len() > 0 {
            State::Trying(0)
        } else {
            State::Exhausted
        }
    }

    /// Decides on the stage at `index`, whose guards gave `checks` for the
    /// request to `uri`: its handler is to be called, or the stage is passed by.
    pub fn select(&self, index: usize, uri: &Uri, checks: &Vec<bool>) -> (state: State)
        ensures
            state@ == after_check(self@, index as int, uri@, checks@),
    {
        if index >= self.links.len() {
            return State::Exhausted;
        }
        let link = &self.links[index];
        assert(link@ == self@[index as int]);
        let path = uri.path();
        if link.matches(path.as_str(), checks) {
            State::Calling { index, uri: link.new_uri(uri) }
        } else if index + 1 < self.links.len() {
            State::Trying(index + 1)
        } else {
            State::Exhausted
        }
    }

    /// Decides on what the handler of the stage at `index` gave. An error is the
    /// result of the dispatch; a response is the result, or it is set aside and
    /// the next stage is tried.
    pub fn settle<E>(&self, index: usize, reply: &Result<Response, E>) -> (state: State)
        ensures
            state@ == after_response(self@, index as int, reply_view(*reply)),
    {
        match reply {
            Err(_) => State::Failed,
            Ok(res) => {
                if index < self.links.len() && index + 1 < self.links.len() {
                    let link = &self.links[index];
                    assert(link@ == self@[index as int]);
                    if link.go_next(res) {
                        return State::Trying(index + 1);
                    }
                }
                State::Returned
            },
        }
    }
}

/// Whether `answers` are the answers of the guards of a stage, asked by `check`:
/// one for each guard, and the only one that `check` gives for it.
pub open spec fn guards_answer<H, G, N, C: Fn(&G) -> bool>(
    stage: LinkInnerView<H, G, N>,
    check: C,
    answers: Seq<bool>,
) -> bool {
    &&& answers.len() == stage.guards.len()
    &&& forall|j: int, b: bool|
        0 <= j < stage.guards.len() && #[trigger] call_ensures(check, (&stage.guards[j],), b)
            ==> b == answers[j]
}

/// Whether `reply` is what the handler of a stage, called by `handler`, gives for
/// a request to `uri`: the only reply that `handler` gives for the target that
/// the stage's handler sees.
pub open spec fn handler_answers<H, G, N: Next, E, F: Fn(&H, &Uri) -> Result<Response, E>>(
    stage: LinkInnerView<H, G, N>,
    uri: UriView,
    handler: F,
    reply: Result<ResponseView, E>,
) -> bool {
    forall|target: Uri, out: Result<Response, E>|
        target@ == seen(stage, uri) && #[trigger] call_ensures(
            handler,
            (&stage.service, &target),
            out,
        ) ==> reply_view(out) == reply
}

/// Whether `checks` and `respond` describe how the guards and the handlers of
/// the stages behave for a request to `uri`, asked by `check` and called by
/// `handler`.
pub open spec fn described<
    H,
    G,
    N: Next,
    E,
    C: Fn(&G) -> bool,
    F: Fn(&H, &Uri) -> Result<Response, E>,
>(
    stages: Seq<LinkInnerView<H, G, N>>,
    uri: UriView,
    check: C,
    handler: F,
    checks: spec_fn(int) -> Seq<bool>,
    respond: spec_fn(int) -> Result<ResponseView, E>,
) -> bool {
    forall|i: int|
        0 <= i < stages.len() ==> guards_answer(#[trigger] stages[i], check, checks(i))
            && handler_answers(stages[i], uri, handler, respond(i))
}

/// Whether `reply` is, as it is, what `handler` gave for the handler of one of
/// the stages and the target that this handler sees of a request to `uri`.
pub open spec fn given_by_a_handler<H, G, N: Next, E, F: Fn(&H, &Uri) -> Result<Response, E>>(
    stages: Seq<LinkInnerView<H, G, N>>,
    uri: UriView,
    handler: F,
    reply: Result<Response, E>,
) -> bool {
    exists|i: int, target: Uri|
        0 <= i < stages.len() && target@ == seen(stages[i], uri) && #[trigger] call_ensures(
            handler,
            (&stages[i].service, &target),
            reply,
        )
}

impl<H, G, N: Next> ChainInner<H, G, N> {
    /// Takes a request to `uri` through the stages, for a host whose handlers
    /// answer at once: the guards are asked by `check`, the handlers are called
    /// by `handler` with the target that they are to see. The result is that of
    /// the dispatch that `run` describes, for every description of how the
    /// guards and handlers behave. However they behave, the result is what a
    /// handler gave, as it is, or the default response.
    pub fn call<E, C: Fn(&G) -> bool, F: Fn(&H, &Uri) -> Result<Response, E>>(
        &self,
        uri: &Uri,
        check: &C,
        handler: &F,
    ) -> (r: Result<Response, E>)
        requires
            forall|guard: &G| call_requires(*check, (guard,)),
            forall|service: &H, target: &Uri| call_requires(*handler, (service, target)),
        ensures
            forall|checks: spec_fn(int) -> Seq<bool>, respond: spec_fn(int) -> Result<ResponseView, E>|
                #[trigger] described(self@, uri@, *check, *handler, checks, respond) ==> reply_view(r)
                    == run(self@, 0, uri@, checks, respond).result(),
            given_by_a_handler(self@, uri@, *handler, r) || reply_view(r) == Ok::<ResponseView, E>(
                default_response_view(),
            ),
    {
        let mut index: usize = 0;
        while index < self.links.len()
            invariant
                index <= self.links.len(),
                forall|guard: &G| call_requires(*check, (guard,)),
                forall|service: &H, target: &Uri| call_requires(*handler, (service, target)),
                forall|checks: spec_fn(int) -> Seq<bool>, respond: spec_fn(int) -> Result<ResponseView, E>|
                    #[trigger] described(self@, uri@, *check, *handler, checks, respond) ==> run(
                        self@,
                        0,
                        uri@,
                        checks,
                        respond,
                    ) == run(self@, index as int, uri@, checks, respond),
            decreases self.links.len() - index,
        {
            let link = &self.links[index];
            assert(link@ == self@[index as int]);
            let answers = link.check_guards(check);
            assert forall|checks: spec_fn(int) -> Seq<bool>, respond: spec_fn(int) -> Result<ResponseView, E>|
                #[trigger] described(self@, uri@, *check, *handler, checks, respond) implies answers@
                == checks(index as int) by {
                assert(guards_answer(self@[index as int], *check, checks(index as int)));
                assert(answers@ =~= checks(index as int));
            }
            match self.select(index, uri, &answers) {
                State::Calling { uri: target, .. } => {
                    let reply = match &target {
                        Some(target) => handler(link.service(), target),
                        None => handler(link.service(), uri),
                    };
                    assert forall|checks: spec_fn(int) -> Seq<bool>, respond: spec_fn(int) -> Result<ResponseView, E>|
                        #[trigger] described(
                            self@,
                            uri@,
                            *check,
                            *handler,
                            checks,
                            respond,
                        ) implies reply_view(reply) == respond(index as int) by {
                        assert(handler_answers(
                            self@[index as int],
                            uri@,
                            *handler,
                            respond(index as int),
                        ));
                    }
                    match self.settle(index, &reply) {
                        State::Trying(_) => {
                            index += 1;
                        },
                        _ => {
                            return reply;
                        },
                    }
                },
                _ => {
                    index += 1;
                },
            }
        }
        Ok(default_response())
    }
}

/// An assembled chain: the dispatcher, shared by all requests.
#[derive(Clone)]
pub struct ChainService<H, G, N>(pub Rc<ChainInner<H, G, N>>);

impl<H, G, N: Next> ChainService<H, G, N> {
    /// The dispatcher of this chain.
    pub fn inner(&self) -> (inner: &ChainInner<H, G, N>)
        ensures
            *inner == *self.0,
    {
        &self.0
    }
}

/// How the dispatch ends from a state of the dispatcher in which work is left
/// for the host.
pub open spec fn run_from_state<H, G, N: Next, E>(
    stages: Seq<LinkInnerView<H, G, N>>,
    state: StateView,
    uri: UriView,
    checks: spec_fn(int) -> Seq<bool>,
    respond: spec_fn(int) -> Result<ResponseView, E>,
) -> Outcome<E> {
    match state {
        StateView::Trying(index) => run(stages, index, uri, checks, respond),
        StateView::Calling { index, .. } => match (
            after_response(stages, index, respond(index)),
            respond(index),
        ) {
            (StateView::Trying(next), _) => run(stages, next, uri, checks, respond),
            (StateView::Returned, Ok(response)) => Outcome::Returned { index, response },
            (StateView::Failed, Err(error)) => Outcome::Failed { index, error },
            _ => Outcome::Exhausted,
        },
        _ => Outcome::Exhausted,
    }
}

/// The dispatch that `run` describes is the one that the dispatcher's decisions
/// make: from the stage at `from`, it ends as it does from the state that the
/// decision on that stage leads to; and the whole of it ends as it does from the
/// state in which it begins.
pub proof fn run_follows_the_decisions<H, G, N: Next, E>(
    stages: Seq<LinkInnerView<H, G, N>>,
    from: int,
    uri: UriView,
    checks: spec_fn(int) -> Seq<bool>,
    respond: spec_fn(int) -> Result<ResponseView, E>,
)
    requires
        0 <= from < stages.len(),
    ensures
        run(stages, from, uri, checks, respond) == run_from_state(
            stages,
            after_check(stages, from, uri, checks(from)),
            uri,
            checks,
            respond,
        ),
        run(stages, 0, uri, checks, respond) == run_from_state(
            stages,
            start_state(stages),
            uri,
            checks,
            respond,
        ),
{
    if from + 1 >= stages.len() {
        assert(run(stages, from + 1, uri, checks, respond) == Outcome::<E>::Exhausted);
    }
}

/// Whether the stage at `index` neither answers a request nor ends its
/// dispatch: the stage is not selected, or its response is set aside.
pub open spec fn passes_on<H, G, N: Next, E>(
    stages: Seq<LinkInnerView<H, G, N>>,
    index: int,
    uri: UriView,
    checks: spec_fn(int) -> Seq<bool>,
    respond: spec_fn(int) -> Result<ResponseView, E>,
) -> bool {
    ||| !stages[index].selects(uri_path(uri), checks(index))
    ||| sends_on(stages, index, respond(index))
}

/// Stages that are not selected leave the dispatch as it would be behind them.
proof fn unselected_stages_are_skipped<H, G, N: Next, E>(
    stages: Seq<LinkInnerView<H, G, N>>,
    from: int,
    to: int,
    uri: UriView,
    checks: spec_fn(int) -> Seq<bool>,
    respond: spec_fn(int) -> Result<ResponseView, E>,
)
    requires
        0 <= from <= to <= stages.len(),
        forall|j: int| from <= j < to ==> !stages[j].selects(uri_path(uri), checks(j)),
    ensures
        run(stages, from, uri, checks, respond) == run(stages, to, uri, checks, respond),
        invoked(stages, from, uri, checks, respond) == invoked(stages, to, uri, checks, respond),
    decreases to - from,
{
    if from < to {
        unselected_stages_are_skipped(stages, from + 1, to, uri, checks, respond);
    }
}

/// Short circuit: where the first stage that is selected for a request gives a
/// response of which none of its predicates holds, that response is the result
/// of the dispatch, and no handler but that stage's is called.
pub proof fn first_answer_is_final<H, G, N: Next, E>(
    stages: Seq<LinkInnerView<H, G, N>>,
    k: int,
    uri: UriView,
    checks: spec_fn(int) -> Seq<bool>,
    respond: spec_fn(int) -> Result<ResponseView, E>,
    response: ResponseView,
)
    requires
        0 <= k < stages.len(),
        forall|j: int| 0 <= j < k ==> !stages[j].selects(uri_path(uri), checks(j)),
        stages[k].selects(uri_path(uri), checks(k)),
        respond(k) == Ok::<ResponseView, E>(response),
        !stages[k].continues(response),
    ensures
        run(stages, 0, uri, checks, respond) == (Outcome::<E>::Returned { index: k, response }),
        run(stages, 0, uri, checks, respond).result() == Ok::<ResponseView, E>(response),
        invoked(stages, 0, uri, checks, respond) == seq![k],
{
    unselected_stages_are_skipped(stages, 0, k, uri, checks, respond);
}

/// The error of a handler is the result of the dispatch as it is, and no
/// handler is called after it.
pub proof fn first_error_is_final<H, G, N: Next, E>(
    stages: Seq<LinkInnerView<H, G, N>>,
    k: int,
    uri: UriView,
    checks: spec_fn(int) -> Seq<bool>,
    respond: spec_fn(int) -> Result<ResponseView, E>,
    error: E,
)
    requires
        0 <= k < stages.len(),
        forall|j: int| 0 <= j < k ==> !stages[j].selects(uri_path(uri), checks(j)),
        stages[k].selects(uri_path(uri), checks(k)),
        respond(k) == Err::<ResponseView, E>(error),
    ensures
        run(stages, 0, uri, checks, respond) == (Outcome::<E>::Failed { index: k, error }),
        run(stages, 0, uri, checks, respond).result() == Err::<ResponseView, E>(error),
        invoked(stages, 0, uri, checks, respond) == seq![k],
{
    unselected_stages_are_skipped(stages, 0, k, uri, checks, respond);
}

/// Every dispatch ends with what the last handler that was called gave, or,
/// where it ends without an answer, every handler that was called had its
/// response set aside. Handlers are called in the order of their stages, each at
/// most once, only where the stage is selected, and none behind the stage whose
/// response or error is returned.
pub proof fn dispatch_ends_at_the_answer<H, G, N: Next, E>(
    stages: Seq<LinkInnerView<H, G, N>>,
    from: int,
    uri: UriView,
    checks: spec_fn(int) -> Seq<bool>,
    respond: spec_fn(int) -> Result<ResponseView, E>,
)
    requires
        0 <= from,
    ensures
        ({
            let calls = invoked(stages, from, uri, checks, respond);
            &&& forall|i: int|
                0 <= i < calls.len() ==> from <= #[trigger] calls[i] < stages.len()
                    && stages[calls[i]].selects(uri_path(uri), checks(calls[i]))
            &&& forall|i: int, j: int| 0 <= i < j < calls.len() ==> calls[i] < calls[j]
            &&& match run(stages, from, uri, checks, respond) {
                Outcome::Returned { index, response } => {
                    &&& calls.len() > 0
                    &&& calls.last() == index
                    &&& respond(index) == Ok::<ResponseView, E>(response)
                    &&& !falls_through(stages, index, response)
                    &&& forall|i: int|
                        0 <= i < calls.len() - 1 ==> sends_on(
                            stages,
                            #[trigger] calls[i],
                            respond(calls[i]),
                        )
                },
                Outcome::Failed { index, error } => {
                    &&& calls.len() > 0
                    &&& calls.last() == index
                    &&& respond(index) == Err::<ResponseView, E>(error)
                    &&& forall|i: int|
                        0 <= i < calls.len() - 1 ==> sends_on(
                            stages,
                            #[trigger] calls[i],
                            respond(calls[i]),
                        )
                },
                Outcome::Exhausted => forall|i: int|
                    0 <= i < calls.len() ==> sends_on(
                        stages,
                        #[trigger] calls[i],
                        respond(calls[i]),
                    ),
            }
        }),
    decreases stages.len() - from,
{
    if from < stages.len() {
        dispatch_ends_at_the_answer(stages, from + 1, uri, checks, respond);
        let rest = invoked(stages, from + 1, uri, checks, respond);
        let calls = invoked(stages, from, uri, checks, respond);
        if stages[from].selects(uri_path(uri), checks(from)) && sends_on(
            stages,
            from,
            respond(from),
        ) {
            assert(calls == seq![from] + rest);
            assert(calls[0] == from);
            assert(forall|i: int| 1 <= i < calls.len() ==> calls[i] == rest[i - 1]);
            assert forall|i: int, j: int| 0 <= i < j < calls.len() implies calls[i] < calls[j] by {
                if i == 0 {
                    assert(calls[j] == rest[j - 1]);
                } else {
                    assert(calls[i] == rest[i - 1]);
                    assert(calls[j] == rest[j - 1]);
                }
            }
            if rest.len() > 0 {
                assert(calls.last() == rest.last());
            }
        }
    }
}

/// Exhaustion: where every stage is passed by or has its response set aside, no
/// stage answers and the result is the default response, however many stages
/// there are, none included.
pub proof fn exhaustion_gives_the_default<H, G, N: Next, E>(
    stages: Seq<LinkInnerView<H, G, N>>,
    from: int,
    uri: UriView,
    checks: spec_fn(int) -> Seq<bool>,
    respond: spec_fn(int) -> Result<ResponseView, E>,
)
    requires
        0 <= from,
        forall|i: int| from <= i < stages.len() ==> passes_on(stages, i, uri, checks, respond),
    ensures
        run(stages, from, uri, checks, respond) == Outcome::<E>::Exhausted,
        run(stages, from, uri, checks, respond).result() == Ok::<ResponseView, E>(
            default_response_view(),
        ),
    decreases stages.len() - from,
{
    if from < stages.len() {
        assert(passes_on(stages, from, uri, checks, respond));
        exhaustion_gives_the_default(stages, from + 1, uri, checks, respond);
    }
}

} // verus!
