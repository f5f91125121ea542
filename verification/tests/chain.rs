use actix_chain::factory::{Chain, ResourceDef};
use actix_chain::link::{default_response, Link};
use actix_chain::next::{HasHeader, IsStatus, Next};
use actix_chain::response::{Response, ResponseView};
use actix_chain::service::{ChainService, State};
use actix_chain::status::StatusCode;
use actix_chain::uri::Uri;

/// A handler of the tests: it answers from the target that it sees.
type Handler = fn(&Uri) -> Result<Response, String>;

/// A guard of the tests: it reads the target of the request.
type Guard = fn(&Uri) -> bool;

type TestChain = Chain<Result<Handler, ()>, Guard, IsStatus>;
type TestLink = Link<Result<Handler, ()>, Guard, IsStatus>;
type TestService = ChainService<Handler, Guard, IsStatus>;

fn status(code: u16) -> StatusCode {
    StatusCode::from_u16(code).unwrap()
}

fn target(text: &str) -> Uri {
    Uri::from_parts(None, None, Some(text.to_string())).unwrap()
}

fn absolute(text: &str) -> Uri {
    let scheme = Some("http".to_string());
    let authority = Some("example.com".to_string());
    Uri::from_parts(scheme, authority, Some(text.to_string())).unwrap()
}

fn answer(code: u16, body: &str) -> Response {
    let mut res = Response::new(status(code));
    res.body = body.as_bytes().to_vec();
    res
}

fn not_found(_: &Uri) -> Result<Response, String> {
    Ok(answer(404, "nothing here"))
}

fn ok(_: &Uri) -> Result<Response, String> {
    Ok(answer(200, "ok"))
}

fn a(_: &Uri) -> Result<Response, String> {
    Ok(answer(200, "A"))
}

fn failure(_: &Uri) -> Result<Response, String> {
    Ok(answer(500, "broken"))
}

fn echo_path(uri: &Uri) -> Result<Response, String> {
    Ok(answer(200, &uri.path()))
}

fn broken(_: &Uri) -> Result<Response, String> {
    Err("handler failed".to_string())
}

fn never(_: &Uri) -> bool {
    false
}

fn always(_: &Uri) -> bool {
    true
}

/// Compiles a chain by the chain's own loop.
fn compile(chain: TestChain) -> Result<TestService, ()> {
    chain.compile(&|factory: &Result<Handler, ()>| *factory)
}

/// Compiles a chain as a host does whose factories give their handlers later:
/// it asks for each factory in turn and hands back what the factory gave.
fn compile_step_by_step(chain: TestChain) -> Result<TestService, ()> {
    let mut assembly = chain.new_service::<Handler>();
    loop {
        let made = match assembly.factory() {
            Some(factory) => *factory,
            None => return Ok(assembly.finish()),
        };
        assembly = assembly.supply(made)?;
    }
}

/// Takes one request through a chain, by the dispatcher's own loop and step by
/// step as a host does, and holds the two against each other. Returns the result
/// and the positions of the stages whose handlers were called.
fn dispatch(service: &TestService, uri: &Uri) -> (Result<Response, String>, Vec<usize>) {
    let (result, calls) = step_by_step(service, uri);
    let seen = std::cell::RefCell::new(0usize);
    let at_once = service.inner().call(
        uri,
        &|guard: &Guard| guard(uri),
        &|handler: &Handler, target: &Uri| {
            *seen.borrow_mut() += 1;
            handler(target)
        },
    );
    assert_eq!(at_once, result);
    assert_eq!(*seen.borrow(), calls.len());
    (result, calls)
}

/// Takes one request through a chain as a host does whose handlers answer later.
fn step_by_step(service: &TestService, uri: &Uri) -> (Result<Response, String>, Vec<usize>) {
    let inner = service.inner();
    let mut calls = Vec::new();
    let mut last = None;
    let mut state = inner.start();
    loop {
        state = match state {
            State::Trying(index) => {
                let link = inner.link(index).unwrap();
                let checks = link.check_guards(&|guard: &Guard| guard(uri));
                inner.select(index, uri, &checks)
            }
            State::Calling { index, uri: seen } => {
                let link = inner.link(index).unwrap();
                let reply = (link.service())(seen.as_ref().unwrap_or(uri));
                calls.push(index);
                let next = inner.settle(index, &reply);
                last = Some(reply);
                next
            }
            State::Returned | State::Failed => return (last.unwrap(), calls),
            State::Exhausted => return (Ok(default_response()), calls),
        }
    }
}

#[test]
fn not_found_falls_through_to_the_next_stage() {
    let chain = TestChain::new("")
        .link(TestLink::new(Ok(not_found as Handler)).prefix("/api"))
        .link(TestLink::new(Ok(ok as Handler)).prefix(""));
    let service = compile(chain).unwrap();
    let (res, calls) = dispatch(&service, &target("/api/x"));
    assert_eq!(res, Ok(answer(200, "ok")));
    assert_eq!(calls, vec![0, 1]);
}

#[test]
fn first_answer_is_returned_at_once() {
    let chain = TestChain::new("").link(TestLink::new(Ok(a as Handler)).prefix("/api"));
    let service = compile(chain).unwrap();
    let (res, calls) = dispatch(&service, &target("/api/x"));
    assert_eq!(res, Ok(answer(200, "A")));
    assert_eq!(calls, vec![0]);
}

#[test]
fn answer_ends_the_dispatch_before_later_stages() {
    let chain = TestChain::new("")
        .link(TestLink::new(Ok(a as Handler)))
        .link(TestLink::new(Ok(ok as Handler)));
    let service = compile(chain).unwrap();
    let (res, calls) = dispatch(&service, &target("/"));
    assert_eq!(res, Ok(answer(200, "A")));
    assert_eq!(calls, vec![0]);
}

#[test]
fn error_of_a_handler_ends_the_dispatch() {
    let chain = TestChain::new("")
        .link(TestLink::new(Ok(not_found as Handler)))
        .link(TestLink::new(Ok(broken as Handler)))
        .link(TestLink::new(Ok(ok as Handler)));
    let service = compile(chain).unwrap();
    let (res, calls) = dispatch(&service, &target("/"));
    assert_eq!(res, Err("handler failed".to_string()));
    assert_eq!(calls, vec![0, 1]);
}

#[test]
fn chain_without_stages_answers_not_found() {
    let service = compile(TestChain::new("")).unwrap();
    assert_eq!(service.inner().len(), 0);
    assert_eq!(service.inner().start(), State::Exhausted);
    let (res, calls) = dispatch(&service, &target("/"));
    assert_eq!(res.as_ref().unwrap().status.as_u16(), 404);
    assert_eq!(res, Ok(default_response()));
    assert!(calls.is_empty());
}

#[test]
fn failing_factory_fails_the_compilation() {
    let chain = TestChain::new("").link(TestLink::new(Err(())));
    assert!(compile(chain).is_err());
}

#[test]
fn one_failing_factory_fails_the_whole_chain() {
    let chain = TestChain::new("")
        .link(TestLink::new(Ok(ok as Handler)))
        .link(TestLink::new(Err(())))
        .link(TestLink::new(Ok(a as Handler)));
    let assembly = chain.new_service::<Handler>();
    let assembly = assembly.supply(Ok(ok as Handler)).unwrap();
    assert!(assembly.factory().unwrap().is_err());
    assert!(assembly.supply(Err(())).is_err());
}

#[test]
fn compilation_stops_at_the_first_failure() {
    let chain = || {
        TestChain::new("")
            .link(TestLink::new(Ok(ok as Handler)))
            .link(TestLink::new(Err(())))
            .link(TestLink::new(Ok(a as Handler)))
    };
    let asked = std::cell::RefCell::new(0usize);
    let result = chain().compile(&|factory: &Result<Handler, ()>| {
        *asked.borrow_mut() += 1;
        *factory
    });
    assert!(result.is_err());
    assert_eq!(*asked.borrow(), 2);
    assert!(compile_step_by_step(chain()).is_err());
}

#[test]
fn compilation_keeps_the_order_of_the_stages() {
    let chain = || {
        TestChain::new("")
            .link(TestLink::new(Ok(a as Handler)).prefix("/a"))
            .link(TestLink::new(Ok(ok as Handler)).prefix("/b"))
            .link(TestLink::new(Ok(not_found as Handler)))
    };
    for service in [compile(chain()).unwrap(), compile_step_by_step(chain()).unwrap()] {
        assert_eq!(service.inner().len(), 3);
        assert_eq!(dispatch(&service, &target("/a")), (Ok(answer(200, "A")), vec![0]));
        assert_eq!(dispatch(&service, &target("/b")), (Ok(answer(200, "ok")), vec![1]));
        assert_eq!(dispatch(&service, &target("/c")), (Ok(answer(404, "nothing here")), vec![2]));
    }
}

#[test]
fn refused_guard_skips_the_stage() {
    let chain = TestChain::new("")
        .link(TestLink::new(Ok(ok as Handler)).prefix("/x").guard(never as Guard));
    let service = compile(chain).unwrap();
    let (res, calls) = dispatch(&service, &target("/x"));
    assert_eq!(res, Ok(default_response()));
    assert_eq!(res.as_ref().unwrap().status.as_u16(), 404);
    assert!(calls.is_empty());
}

#[test]
fn every_stage_passed_by_gives_the_default() {
    let chain = TestChain::new("")
        .link(TestLink::new(Ok(ok as Handler)).prefix("/a"))
        .link(TestLink::new(Ok(not_found as Handler)))
        .link(TestLink::new(Ok(ok as Handler)).guard(always as Guard).guard(never as Guard));
    let service = compile(chain).unwrap();
    let (res, calls) = dispatch(&service, &target("/b"));
    assert_eq!(res, Ok(default_response()));
    assert_eq!(calls, vec![1]);
}

#[test]
fn last_stage_returns_what_it_gave() {
    let chain = TestChain::new("")
        .link(TestLink::new(Ok(ok as Handler)).prefix("/other"))
        .link(TestLink::new(Ok(not_found as Handler)));
    let service = compile(chain).unwrap();
    let (res, calls) = dispatch(&service, &target("/x"));
    assert_eq!(res, Ok(answer(404, "nothing here")));
    assert_eq!(calls, vec![1]);
}

#[test]
fn handler_sees_the_path_without_the_prefix() {
    let chain = TestChain::new("")
        .link(TestLink::new(Ok(echo_path as Handler)).prefix("/api"));
    let service = compile(chain).unwrap();
    assert_eq!(dispatch(&service, &target("/api/x")).0, Ok(answer(200, "/x")));
    assert_eq!(dispatch(&service, &target("/api/x/y?q=1")).0, Ok(answer(200, "/x/y")));
    assert_eq!(dispatch(&service, &target("/api")).0, Ok(answer(200, "")));
    assert_eq!(dispatch(&service, &target("/api?q=1")).0, Ok(answer(200, "/")));
    assert_eq!(dispatch(&service, &target("/apiary")).0, Ok(answer(200, "ary")));
}

#[test]
fn handler_sees_the_path_as_it_is_without_a_prefix() {
    let chain = TestChain::new("").link(TestLink::new(Ok(echo_path as Handler)));
    let service = compile(chain).unwrap();
    assert_eq!(dispatch(&service, &target("/api/x")).0, Ok(answer(200, "/api/x")));
    assert_eq!(
        service.inner().select(0, &target("/api/x"), &vec![]),
        State::Calling { index: 0, uri: None }
    );
}

#[test]
fn new_uri_strips_the_prefix_from_path_and_query() {
    let chain = TestChain::new("").link(TestLink::new(Ok(ok as Handler)).prefix("/api"));
    let service = compile(chain).unwrap();
    let link = service.inner().link(0).unwrap();
    assert_eq!(link.new_uri(&target("/api/x?y=1")), Some(target("/x?y=1")));
    assert_eq!(link.new_uri(&absolute("/api/x")), Some(absolute("/x")));
}

#[test]
fn new_uri_drops_a_rest_that_is_no_path() {
    let chain = TestChain::new("").link(TestLink::new(Ok(ok as Handler)).prefix("/api"));
    let service = compile(chain).unwrap();
    let link = service.inner().link(0).unwrap();
    let none = Uri::from_parts(None, None, None).unwrap();
    // a space is no character of a path
    assert_eq!(link.new_uri(&target("/api/a b")), Some(none.clone()));
    // the text does not begin with the prefix
    assert_eq!(link.new_uri(&target("/other")), Some(none));
    // with a scheme the parts no longer make a target
    assert_eq!(link.new_uri(&absolute("/api/a b")), None);
}

#[test]
fn call_once_gives_nothing_for_a_stage_that_is_not_selected() {
    let chain = TestChain::new("")
        .link(TestLink::new(Ok(ok as Handler)).prefix("/api").guard(always as Guard));
    let service = compile(chain).unwrap();
    let link = service.inner().link(0).unwrap();
    assert_eq!(link.call_once(target("/api/x"), &vec![true]), Some(target("/x")));
    assert_eq!(link.call_once(target("/api/x?q=1"), &vec![true]), Some(target("/x?q=1")));
    assert_eq!(link.call_once(absolute("/api/x?q=1"), &vec![true]), Some(absolute("/x?q=1")));
    // an empty rest reads `/` beside a scheme or a query
    assert_eq!(link.call_once(absolute("/api"), &vec![true]).unwrap().path(), "/");
    assert_eq!(link.call_once(target("/api?q=1"), &vec![true]).unwrap().path(), "/");
    assert_eq!(link.call_once(target("/api"), &vec![true]).unwrap().path(), "");
    // a rest that is no path leaves the target without one
    assert_eq!(link.call_once(target("/api/a b"), &vec![true]).unwrap().path(), "");
    assert_eq!(link.call_once(target("/api/x"), &vec![false]), None);
    assert_eq!(link.call_once(target("/x"), &vec![true]), None);
}

#[test]
fn stage_is_selected_by_prefix_and_all_guards() {
    let chain = TestChain::new("").link(
        TestLink::new(Ok(ok as Handler)).prefix("/x").guard(always as Guard).guard(always as Guard),
    );
    let service = compile(chain).unwrap();
    let link = service.inner().link(0).unwrap();
    assert_eq!(link.guards().len(), 2);
    assert!(link.matches("/x/y", &vec![true, true]));
    assert!(!link.matches("/x/y", &vec![true, false]));
    assert!(!link.matches("/x/y", &vec![false, true]));
    assert!(!link.matches("/y", &vec![true, true]));
    // a result is missing, or one too many is given
    assert!(!link.matches("/x/y", &vec![true]));
    assert!(!link.matches("/x/y", &vec![true, true, true]));
}

#[test]
fn guards_are_asked_in_their_order() {
    fn by_length(uri: &Uri) -> bool {
        uri.path().len() > 2
    }
    let chain = TestChain::new("").link(
        TestLink::new(Ok(ok as Handler))
            .guard(always as Guard)
            .guard(never as Guard)
            .guard(by_length as Guard),
    );
    let service = compile(chain).unwrap();
    let link = service.inner().link(0).unwrap();
    let long = target("/abc");
    let short = target("/");
    assert_eq!(link.check_guards(&|guard: &Guard| guard(&long)), vec![true, false, true]);
    assert_eq!(link.check_guards(&|guard: &Guard| guard(&short)), vec![true, false, false]);
    assert_eq!(link.check_guards(&|_: &Guard| true), vec![true, true, true]);
    let bare = compile(TestChain::new("").link(TestLink::new(Ok(ok as Handler)))).unwrap();
    assert!(bare.inner().link(0).unwrap().check_guards(&|_: &Guard| false).is_empty());
}

#[test]
fn stage_without_guards_is_selected_by_its_prefix_alone() {
    let chain = TestChain::new("")
        .link(TestLink::new(Ok(ok as Handler)).prefix("/x"))
        .link(TestLink::new(Ok(ok as Handler)));
    let service = compile(chain).unwrap();
    let first = service.inner().link(0).unwrap();
    let second = service.inner().link(1).unwrap();
    assert!(first.guards().is_empty());
    assert!(first.matches("/x", &vec![]));
    assert!(!first.matches("/", &vec![]));
    assert!(second.matches("/", &vec![]));
    assert!(second.matches("", &vec![]));
}

#[test]
fn stage_without_predicates_goes_on_after_404_only() {
    let chain = TestChain::new("").link(TestLink::new(Ok(ok as Handler)));
    let service = compile(chain).unwrap();
    let link = service.inner().link(0).unwrap();
    assert_eq!(link.rules().len(), 1);
    assert!(link.go_next(&answer(404, "")));
    assert!(!link.go_next(&answer(200, "")));
    assert!(!link.go_next(&answer(403, "")));
    assert!(!link.go_next(&answer(500, "")));
}

#[test]
fn declared_predicates_replace_the_default() {
    let chain = TestChain::new("").link(
        TestLink::new(Ok(failure as Handler))
            .next(IsStatus::new(status(500)))
            .next(IsStatus::new(status(502))),
    ).link(TestLink::new(Ok(ok as Handler)));
    let service = compile(chain).unwrap();
    let link = service.inner().link(0).unwrap();
    assert_eq!(link.rules().len(), 2);
    assert!(link.go_next(&answer(500, "")));
    assert!(link.go_next(&answer(502, "")));
    assert!(!link.go_next(&answer(404, "")));
    let (res, calls) = dispatch(&service, &target("/"));
    assert_eq!(res, Ok(answer(200, "ok")));
    assert_eq!(calls, vec![0, 1]);
}

#[test]
fn settle_returns_the_response_of_the_last_stage() {
    let chain = TestChain::new("")
        .link(TestLink::new(Ok(not_found as Handler)))
        .link(TestLink::new(Ok(not_found as Handler)));
    let service = compile(chain).unwrap();
    let inner = service.inner();
    assert_eq!(inner.start(), State::Trying(0));
    assert_eq!(inner.settle(0, &Ok::<_, ()>(answer(404, ""))), State::Trying(1));
    assert_eq!(inner.settle(0, &Ok::<_, ()>(answer(200, ""))), State::Returned);
    assert_eq!(inner.settle(1, &Ok::<_, ()>(answer(404, ""))), State::Returned);
    assert_eq!(inner.settle(7, &Ok::<_, ()>(answer(404, ""))), State::Returned);
    assert_eq!(inner.settle(0, &Err::<Response, _>("broken")), State::Failed);
    assert_eq!(inner.settle(1, &Err::<Response, _>("broken")), State::Failed);
    assert_eq!(inner.select(2, &target("/"), &vec![]), State::Exhausted);
    assert!(inner.link(2).is_none());
}

#[test]
fn default_response_is_a_plain_text_404() {
    let res = default_response();
    assert_eq!(res.status.as_u16(), 404);
    assert_eq!(
        res.headers,
        vec![("content-type".to_string(), "text/plain; charset=utf-8".to_string())]
    );
    assert_eq!(res.body, b"Not Found".to_vec());
}

#[test]
fn body_buffer_defaults_to_32_kib() {
    let service = compile(TestChain::new("/mount")).unwrap();
    assert_eq!(service.inner().body_buffer_size(), 32 * 1024);
    let service = compile(TestChain::default()).unwrap();
    assert_eq!(service.inner().body_buffer_size(), 32768);
}

#[test]
fn registration_takes_the_guards_and_the_kind_of_prefix() {
    let plain = TestChain::new("/files").register(true);
    assert_eq!(plain.rdef, ResourceDef::RootPrefix("/files".to_string()));
    assert!(plain.guards.is_none());
    let guarded = TestChain::new("/files")
        .guard(always as Guard)
        .guard(never as Guard)
        .link(TestLink::new(Ok(ok as Handler)))
        .register(false);
    assert_eq!(guarded.rdef, ResourceDef::Prefix("/files".to_string()));
    let guards = guarded.guards.unwrap();
    assert_eq!(guards.len(), 2);
    assert!(guards[0](&target("/")));
    assert!(!guards[1](&target("/")));
    let service = compile(guarded.factory).unwrap();
    assert_eq!(service.inner().len(), 1);
}

#[test]
fn push_link_adds_behind_the_others() {
    let mut chain = TestChain::new("");
    chain
        .push_link(TestLink::new(Ok(a as Handler)).prefix("/a"))
        .push_link(TestLink::new(Ok(ok as Handler)));
    let service = compile(chain).unwrap();
    assert_eq!(dispatch(&service, &target("/a")), (Ok(answer(200, "A")), vec![0]));
    assert_eq!(dispatch(&service, &target("/b")), (Ok(answer(200, "ok")), vec![1]));
}

struct Teapot;

impl Next for Teapot {
    fn holds(&self, _res: ResponseView) -> bool {
        unreachable!()
    }

    fn next(&self, res: &Response) -> bool {
        res.status.as_u16() == 418
    }
}

#[test]
fn predicates_of_the_caller_decide_too() {
    let chain = Chain::<Result<Handler, ()>, Guard, Teapot>::new("")
        .link(Link::new(Ok(not_found as Handler)).next(Teapot));
    let mut assembly = chain.new_service::<Handler>();
    let made = *assembly.factory().unwrap();
    assembly = assembly.supply(made).unwrap();
    assert!(assembly.factory().is_none());
    let service = assembly.finish();
    let link = service.inner().link(0).unwrap();
    assert!(link.go_next(&answer(418, "")));
    assert!(!link.go_next(&answer(404, "")));
}

#[test]
fn is_status_holds_of_its_status_only() {
    let p = IsStatus::new(StatusCode::not_found());
    assert!(p.next(&answer(404, "")));
    assert!(!p.next(&answer(200, "")));
}

#[test]
fn has_header_looks_for_the_name() {
    let mut res = answer(200, "");
    res.headers.push(("x-accel-redirect".to_string(), "/a".to_string()));
    res.headers.push(("location".to_string(), "/b".to_string()));
    assert!(HasHeader::new("x-accel-redirect".to_string()).next(&res));
    assert!(HasHeader::new("location".to_string()).next(&res));
    assert!(!HasHeader::new("x-accel".to_string()).next(&res));
    assert!(!HasHeader::new("location".to_string()).next(&answer(200, "")));
}
