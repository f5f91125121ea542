use actix_chain::response::Response;
use actix_chain::rewrite::error::RewriteErrorKind;
use actix_chain::rewrite::rewrite::{resolve, Rewrite, RewriteEngine, Rewritten};
use actix_chain::rewrite::service::{route, RewriteInner, RewriteService, Routed};
use std::rc::Rc;
use actix_chain::rewrite::util::{join_uri, merge_pairs, put_pair};
use actix_chain::status::StatusCode;
use actix_chain::uri::{InvalidUriParts, Uri};
use mod_rewrite::context::RequestCtx;
use mod_rewrite::error::EngineError;

fn pair(key: &str, value: &str) -> (String, String) {
    (key.to_string(), value.to_string())
}

fn absolute(text: &str) -> Uri {
    let scheme = Some("http".to_string());
    let authority = Some("example.com".to_string());
    Uri::from_parts(scheme, authority, Some(text.to_string())).unwrap()
}

fn relative(text: &str) -> Uri {
    Uri::from_parts(None, None, Some(text.to_string())).unwrap()
}

#[test]
fn put_replaces_in_place_or_appends() {
    let mut pairs = vec![pair("a", "1"), pair("b", "2")];
    put_pair(&mut pairs, "a".to_string(), "3".to_string());
    assert_eq!(pairs, vec![pair("a", "3"), pair("b", "2")]);
    put_pair(&mut pairs, "c".to_string(), "4".to_string());
    assert_eq!(pairs, vec![pair("a", "3"), pair("b", "2"), pair("c", "4")]);
    let mut none = Vec::new();
    put_pair(&mut none, "k".to_string(), "v".to_string());
    assert_eq!(none, vec![pair("k", "v")]);
}

#[test]
fn merge_prefers_the_later_value() {
    let mut base = vec![pair("a", "1"), pair("b", "2")];
    merge_pairs(&mut base, vec![pair("b", "x"), pair("c", "y"), pair("b", "z")]);
    assert_eq!(base, vec![pair("a", "1"), pair("b", "z"), pair("c", "y")]);
    merge_pairs(&mut base, Vec::new());
    assert_eq!(base, vec![pair("a", "1"), pair("b", "z"), pair("c", "y")]);
}

#[test]
fn join_takes_path_from_the_rewritten_target_and_merges_queries() {
    let joined = join_uri(&absolute("/old?a=1&b=2"), &relative("/new?b=3&c=4")).unwrap();
    assert_eq!(joined, absolute("/new?a=1&b=3&c=4"));
}

#[test]
fn join_writes_the_query_in_its_encoded_form() {
    let joined = join_uri(&absolute("/old?q=a%20b"), &relative("/new")).unwrap();
    assert_eq!(joined, absolute("/new?q=a+b"));
    let joined = join_uri(&absolute("/old"), &relative("/new")).unwrap();
    assert_eq!(joined, absolute("/new?"));
}

#[test]
fn join_prefers_scheme_and_authority_of_the_rewritten_target() {
    let after = Uri::from_parts(
        Some("https".to_string()),
        Some("other.org".to_string()),
        Some("/x".to_string()),
    )
    .unwrap();
    let joined = join_uri(&absolute("/old"), &after).unwrap();
    assert_eq!(joined.scheme(), &Some("https".to_string()));
    assert_eq!(joined.authority(), &Some("other.org".to_string()));
    assert_eq!(joined.path_and_query(), &Some("/x?".to_string()));
}

#[test]
fn join_needs_an_authority() {
    let err = join_uri(&relative("/old"), &relative("/new")).unwrap_err();
    assert_eq!(err.kind(), RewriteErrorKind::Parts(InvalidUriParts::AuthorityMissing));
}

#[test]
fn join_rejects_a_path_that_is_none() {
    let err = join_uri(&absolute("/old"), &relative("/a b")).unwrap_err();
    assert_eq!(err.kind(), RewriteErrorKind::PathAndQuery);
}

#[test]
fn resolve_keeps_targets_and_builds_responses() {
    assert_eq!(
        resolve(Ok(Rewritten::Uri("/a".to_string()))).ok(),
        Some(Rewrite::Uri("/a".to_string()))
    );
    assert_eq!(
        resolve(Ok(Rewritten::EndUri("/b".to_string()))).ok(),
        Some(Rewrite::Uri("/b".to_string()))
    );
    let mut redirect = Response::new(StatusCode::from_u16(302).unwrap());
    redirect.headers.push(("location".to_string(), "/there".to_string()));
    assert_eq!(
        resolve(Ok(Rewritten::Redirect("/there".to_string(), 302))).ok(),
        Some(Rewrite::Redirect(redirect))
    );
    assert_eq!(
        resolve(Ok(Rewritten::StatusCode(403))).ok(),
        Some(Rewrite::Response(Response::new(StatusCode::from_u16(403).unwrap())))
    );
}

#[test]
fn resolve_rejects_numbers_that_are_no_status() {
    let err = resolve(Ok(Rewritten::StatusCode(99))).unwrap_err();
    assert_eq!(err.kind(), RewriteErrorKind::StatusCode);
    let err = resolve(Ok(Rewritten::Redirect("/x".to_string(), 1000))).unwrap_err();
    assert_eq!(err.kind(), RewriteErrorKind::StatusCode);
    let err = resolve(Err(EngineError::TooManyIterations)).unwrap_err();
    assert_eq!(err.kind(), RewriteErrorKind::Engine);
}

#[test]
fn route_answers_or_forwards() {
    let res = Response::new(StatusCode::from_u16(403).unwrap());
    assert_eq!(
        route(Rewrite::Response(res.clone()), &absolute("/a")).ok(),
        Some(Routed::Respond(res.clone()))
    );
    assert_eq!(
        route(Rewrite::Redirect(res.clone()), &absolute("/a")).ok(),
        Some(Routed::Respond(res))
    );
    assert_eq!(
        route(Rewrite::Uri("/new?x=1".to_string()), &absolute("/old?y=2")).ok(),
        Some(Routed::Forward(absolute("/new?y=2&x=1")))
    );
    let err = route(Rewrite::Uri("/a b".to_string()), &absolute("/old")).unwrap_err();
    assert_eq!(err.kind(), RewriteErrorKind::InvalidUri);
}

#[test]
fn engine_applies_its_rules() {
    let mut engine = RewriteEngine::new().max_iterations(5);
    engine
        .add_rules(
            "RewriteRule /file/(.*) /tmp/$1 [L]\n\
             RewriteRule /redirect/(.*) /location/$1 [R=302]\n\
             RewriteRule /blocked/(.*) - [F]\n",
        )
        .unwrap();
    assert_eq!(
        engine.rewrite("/file/a.txt", RequestCtx::default()).ok(),
        Some(Rewrite::Uri("/tmp/a.txt".to_string()))
    );
    match engine.rewrite("/redirect/x", RequestCtx::default()).ok() {
        Some(Rewrite::Redirect(res)) => {
            assert_eq!(res.status.as_u16(), 302);
            assert_eq!(res.headers, vec![pair("location", "/location/x")]);
            assert!(res.body.is_empty());
        }
        other => panic!("no redirect: {:?}", other),
    }
    match engine.rewrite("/blocked/x", RequestCtx::default()).ok() {
        Some(Rewrite::Response(res)) => assert_eq!(res.status.as_u16(), 403),
        other => panic!("no response: {:?}", other),
    }
    assert_eq!(
        engine.rewrite("/other", RequestCtx::default()).ok(),
        Some(Rewrite::Uri("/other".to_string()))
    );
}

#[test]
fn engine_rejects_what_is_no_rule() {
    let mut engine = RewriteEngine::default();
    let err = engine.add_rules("NoSuchThing here").unwrap_err();
    assert_eq!(err.kind(), RewriteErrorKind::Expression);
}

#[test]
fn uri_text_joins_the_parts() {
    assert_eq!(absolute("/a?b=c").text(), "http://example.com/a?b=c");
    assert_eq!(relative("/a").text(), "/a");
    assert_eq!(relative("").text(), "");
    assert_eq!(absolute("").text(), "http://example.com/");
}

#[test]
fn engine_gives_up_after_its_bound() {
    let rules = "RewriteRule ^/1$ /2\nRewriteRule ^/2$ /3\nRewriteRule ^/3$ /4\n";
    let mut patient = RewriteEngine::new();
    patient.add_rules(rules).unwrap();
    let patient = patient.max_iterations(5);
    assert_eq!(
        patient.rewrite("/1", RequestCtx::default()).ok(),
        Some(Rewrite::Uri("/4".to_string()))
    );
    let mut hasty = RewriteEngine::new();
    hasty.add_rules(rules).unwrap();
    let hasty = hasty.max_iterations(3);
    let err = hasty.rewrite("/1", RequestCtx::default()).unwrap_err();
    assert_eq!(err.kind(), RewriteErrorKind::Engine);
}

#[test]
fn service_answers_or_forwards_by_the_rules() {
    let mut engine = RewriteEngine::new();
    engine
        .add_rules(
            "RewriteRule /old/(.*)$ /new/$1 [L]\n\
             RewriteRule /gone$ - [G]\n",
        )
        .unwrap();
    let service =
        RewriteService(Rc::new(RewriteInner { service: Rc::new(()), engine: Rc::new(engine) }));
    // the rules see the whole text of the target
    assert_eq!(
        service.call(&absolute("/old/a?x=1"), RequestCtx::default()).ok(),
        Some(Routed::Forward(absolute("/new/a?x=1")))
    );
    match service.call(&absolute("/gone"), RequestCtx::default()).ok() {
        Some(Routed::Respond(res)) => assert_eq!(res.status.as_u16(), 410),
        other => panic!("no response: {:?}", other),
    }
    // a target without an authority cannot be joined
    let err = service.call(&relative("/old/a"), RequestCtx::default()).unwrap_err();
    assert_eq!(err.kind(), RewriteErrorKind::Parts(InvalidUriParts::AuthorityMissing));
}

#[test]
fn new_engine_leaves_the_target() {
    let engine = RewriteEngine::new();
    for (given, expected) in [
        ("/a/b?c=d", "/a/b?c=d"),
        ("/a/b", "/a/b"),
        ("/a?", "/a"),
        ("/a?b?", "/a?b?"),
        ("?", ""),
        ("", ""),
        ("http://example.com/a?x=1", "http://example.com/a?x=1"),
    ] {
        assert_eq!(
            engine.rewrite(given, RequestCtx::default()).ok(),
            Some(Rewrite::Uri(expected.to_string()))
        );
    }
}

#[test]
fn service_without_rules_forwards_the_target_of_the_request() {
    let service = RewriteService(Rc::new(RewriteInner {
        service: Rc::new(()),
        engine: Rc::new(RewriteEngine::new()),
    }));
    assert_eq!(
        service.call(&absolute("/a?x=1&y=2"), RequestCtx::default()).ok(),
        Some(Routed::Forward(absolute("/a?x=1&y=2")))
    );
    assert_eq!(
        service.call(&absolute("/a"), RequestCtx::default()).ok(),
        Some(Routed::Forward(absolute("/a?")))
    );
}

#[test]
fn rules_added_later_start_with_the_default_bound() {
    let rules = "RewriteRule ^/1$ /2\nRewriteRule ^/2$ /3\nRewriteRule ^/3$ /4\n";
    // the bound is set for the groups that the engine holds, and it holds none yet
    let mut engine = RewriteEngine::new().max_iterations(3);
    engine.add_rules(rules).unwrap();
    assert_eq!(
        engine.rewrite("/1", RequestCtx::default()).ok(),
        Some(Rewrite::Uri("/4".to_string()))
    );
    // now the group is held, and the bound reaches it
    let engine = engine.max_iterations(3);
    let err = engine.rewrite("/1", RequestCtx::default()).unwrap_err();
    assert_eq!(err.kind(), RewriteErrorKind::Engine);
}

#[test]
fn rejected_rules_leave_the_engine_as_it_was() {
    let mut engine = RewriteEngine::new();
    engine.add_rules("RewriteRule ^/old$ /new [L]\n").unwrap();
    let err = engine.add_rules("RewriteRule ^/x$ /y [L]\nNoSuchThing here\n").unwrap_err();
    assert_eq!(err.kind(), RewriteErrorKind::Expression);
    assert_eq!(
        engine.rewrite("/old", RequestCtx::default()).ok(),
        Some(Rewrite::Uri("/new".to_string()))
    );
    // the rule that stood before the rejected line was not added either
    assert_eq!(
        engine.rewrite("/x", RequestCtx::default()).ok(),
        Some(Rewrite::Uri("/x".to_string()))
    );
}

#[test]
fn rules_outside_ascii_are_refused_before_the_parser() {
    let mut engine = RewriteEngine::new();
    engine.add_rules("RewriteRule ^/old$ /new [L]\n").unwrap();
    for rules in [
        "RewriteCond \u{e9} =x\nRewriteRule ^/a$ /b\n",
        "RewriteCond \"\u{e9}\" =x\nRewriteRule ^/a$ /b\n",
        "RewriteCond \u{e9}\"x =x\n",
        "RewriteRule ^/caf\u{e9}$ /b\n",
    ] {
        let err = engine.add_rules(rules).unwrap_err();
        assert_eq!(err.kind(), RewriteErrorKind::NotAscii);
    }
    assert_eq!(
        engine.rewrite("/old", RequestCtx::default()).ok(),
        Some(Rewrite::Uri("/new".to_string()))
    );
    assert_eq!(
        engine.rewrite("/a", RequestCtx::default()).ok(),
        Some(Rewrite::Uri("/a".to_string()))
    );
}

#[test]
fn conditions_in_ascii_are_parsed() {
    let mut engine = RewriteEngine::default();
    engine.add_rules("RewriteCond \"a b\" \"=a b\"\nRewriteRule ^/a$ /b\n").unwrap();
    assert_eq!(
        engine.rewrite("/a", RequestCtx::default()).ok(),
        Some(Rewrite::Uri("/b".to_string()))
    );
    let err = engine.add_rules("RewriteCond \"unclosed =x\n").unwrap_err();
    assert_eq!(err.kind(), RewriteErrorKind::Expression);
}
