//! Request targets as the chain reads them: a scheme, an authority and the text
//! of path and query, each optional.

use std::str::FromStr;
use http::uri::PathAndQuery;
use vstd::prelude::*;
use crate::text::{
    first_occurrence, first_occurrence_is_unique, occurs, occurs_at, single_occurs_at, split_once,
};

verus! {

/// Why three parts do not make a request target.
#[derive(Debug, Clone, Copy, PartialEq, Eq, Structural)]
pub enum InvalidUriParts {
    /// A scheme is given without an authority.
    AuthorityMissing,
    /// A scheme is given without a path.
    PathAndQueryMissing,
    /// An authority and a path are given without a scheme.
    SchemeMissing,
    /// The text of path and query holds a `#`, and with it a fragment.
    Fragment,
}

/// A request target, held by its parts: a scheme, an authority, and the text
/// from the first character of the path to the end of the query, without a
/// fragment.
///
/// The parts of a target fit together: a scheme stands with an authority and a
/// path, and an authority with a path stands with a scheme. No `#` stands in
/// the text of path and query.
#[derive(Debug, PartialEq, Eq)]
pub struct Uri {
    scheme: Option<String>,
    authority: Option<String>,
    path_and_query: Option<String>,
}

/// The mathematical value of a [`Uri`].
pub struct UriView {
    pub scheme: Option<Seq<char>>,
    pub authority: Option<Seq<char>>,
    pub path_and_query: Option<Seq<char>>,
}

impl View for Uri {
    type V = UriView;

    closed spec fn view(&self) -> UriView {
        UriView {
            scheme: self.scheme.deep_view(),
            authority: self.authority.deep_view(),
            path_and_query: self.path_and_query.deep_view(),
        }
    }
}

/// Whether `http::uri::PathAndQuery::from_str` accepts a text as path and query.
pub uninterp spec fn is_path_and_query(text: Seq<char>) -> bool;

/// Trusted: `http::uri::PathAndQuery::from_str`, asked only whether it accepts
/// the text. The parser reads nothing but the bytes of its argument, so the
/// answer is a function of the text.
#[verifier::external_body]
pub(crate) fn accepts_path_and_query(text: &str) -> (ok: bool)
    ensures
        ok == is_path_and_query(text@),
{
    PathAndQuery::from_str(text).is_ok()
}

#[verifier::external_type_specification]
#[verifier::external_body]
pub struct ExInvalidUri(http::uri::InvalidUri);

/// The target that `http::Uri::from_str` reads from a text, held by its parts;
/// `None` where it rejects the text.
pub uninterp spec fn uri_of_text(text: Seq<char>) -> Option<UriView>;

/// The parts of a target as text: scheme, authority, and path and query.
pub open spec fn parts_view(parts: (Option<String>, Option<String>, Option<String>)) -> UriView {
    UriView {
        scheme: parts.0.deep_view(),
        authority: parts.1.deep_view(),
        path_and_query: parts.2.deep_view(),
    }
}

/// Trusted: `http::Uri::from_str`, with the parts of the target that it gives
/// written out as text: scheme, authority, and path and query. The parser
/// reads nothing but the bytes of its argument.
#[verifier::external_body]
pub(crate) fn parse_uri(text: &str) -> (r: Result<
    (Option<String>, Option<String>, Option<String>),
    http::uri::InvalidUri,
>)
    ensures
        match r {
            Ok(parts) => uri_of_text(text@) == Some(parts_view(parts)),
            Err(_) => uri_of_text(text@) is None,
        },
{
    let uri = http::Uri::from_str(text)?;
    Ok((
        uri.scheme_str().map(|s| s.to_owned()),
        uri.authority().map(|a| a.as_str().to_owned()),
        uri.path_and_query().map(|p| p.as_str().to_owned()),
    ))
}

/// The error, if any, that keeps three parts from making a request target: a
/// part that is missing beside the others, or else a fragment in the text of
/// path and query.
pub open spec fn parts_error(
    scheme: Option<Seq<char>>,
    authority: Option<Seq<char>>,
    path_and_query: Option<Seq<char>>,
) -> Option<InvalidUriParts> {
    if scheme is Some && authority is None {
        Some(InvalidUriParts::AuthorityMissing)
    } else if scheme is Some && path_and_query is None {
        Some(InvalidUriParts::PathAndQueryMissing)
    } else if scheme is None && authority is Some && path_and_query is Some {
        Some(InvalidUriParts::SchemeMissing)
    } else {
        match path_and_query {
            Some(text) if occurs(text, seq!['#']) => Some(InvalidUriParts::Fragment),
            _ => None,
        }
    }
}

/// Whether the parts of a target fit together and hold no fragment. Every
/// [`Uri`] is well formed.
pub open spec fn well_formed(uri: UriView) -> bool {
    parts_error(uri.scheme, uri.authority, uri.path_and_query) is None
}

/// The target made of three parts, or the reason why there is none.
pub open spec fn uri_from_parts(
    scheme: Option<Seq<char>>,
    authority: Option<Seq<char>>,
    path_and_query: Option<Seq<char>>,
) -> Result<UriView, InvalidUriParts> {
    match parts_error(scheme, authority, path_and_query) {
        Some(e) => Err(e),
        None => Ok(UriView { scheme, authority, path_and_query }),
    }
}

/// The length of the path inside the text of path and query: the position of the
/// first `?`, or the whole length where there is none.
pub open spec fn path_len(path_and_query: Seq<char>) -> int {
    if occurs(path_and_query, seq!['?']) {
        choose|at: int| first_occurrence(path_and_query, seq!['?'], at)
    } else {
        path_and_query.len() as int
    }
}

/// The path of a target. A target without path and query has the empty path, and
/// so has one without a scheme whose text is empty; any other empty path reads `/`.
pub open spec fn uri_path(uri: UriView) -> Seq<char> {
    match uri.path_and_query {
        None => Seq::empty(),
        Some(text) => {
            let path = text.take(path_len(text));
            if path.len() > 0 {
                path
            } else if text.len() == 0 && uri.scheme is None {
                Seq::empty()
            } else {
                seq!['/']
            }
        },
    }
}

/// The query of a target: what stands behind the first `?`, if there is one.
pub open spec fn uri_query(uri: UriView) -> Option<Seq<char>> {
    match uri.path_and_query {
        Some(text) if occurs(text, seq!['?']) => Some(text.skip(path_len(text) + 1)),
        _ => None,
    }
}

/// Behind a text without `?`, the path of what follows is as long as it is alone.
pub proof fn path_len_behind(head: Seq<char>, rest: Seq<char>)
    requires
        !occurs(head, seq!['?']),
    ensures
        occurs(head + rest, seq!['?']) == occurs(rest, seq!['?']),
        path_len(head + rest) == head.len() + path_len(rest),
        0 <= path_len(rest) <= rest.len(),
{
    let q = seq!['?'];
    let whole = head + rest;
    assert forall|at: int| occurs_at(whole, q, at) <==> occurs_at(rest, q, at - head.len()) by {
        single_occurs_at(whole, '?', at);
        single_occurs_at(rest, '?', at - head.len());
        single_occurs_at(head, '?', at);
        if 0 <= at < head.len() {
            assert(whole[at] == head[at]);
            assert(!occurs_at(head, q, at));
        } else if head.len() <= at < whole.len() {
            assert(whole[at] == rest[at - head.len()]);
        }
    }
    if occurs(rest, q) {
        let at = choose|at: int| occurs_at(rest, q, at);
        assert(occurs_at(whole, q, at + head.len()));
        first_exists(rest, q, at);
        let first = choose|at: int| first_occurrence(rest, q, at);
        assert(first == path_len(rest));
        assert(occurs_at(whole, q, first + head.len()));
        assert(first_occurrence(whole, q, first + head.len())) by {
            assert forall|j: int| 0 <= j < first + head.len() implies !occurs_at(whole, q, j) by {
                if occurs_at(whole, q, j) {
                    assert(occurs_at(rest, q, j - head.len()));
                }
            }
        }
        first_exists(whole, q, first + head.len());
        first_occurrence_is_unique(whole, q, first + head.len(), path_len(whole));
    } else {
        if occurs(whole, q) {
            let at = choose|at: int| occurs_at(whole, q, at);
            assert(occurs_at(rest, q, at - head.len()));
        }
    }
}

/// The path ends where the query begins: no `?` stands in it, the first `?`
/// stands behind it, and it is the whole text where no `?` stands in the text.
pub proof fn path_ends_at_the_query(text: Seq<char>)
    ensures
        0 <= path_len(text) <= text.len(),
        !occurs(text.take(path_len(text)), seq!['?']),
        path_len(text) < text.len() ==> text[path_len(text)] == '?',
        occurs(text, seq!['?']) <==> path_len(text) < text.len(),
{
    let q = seq!['?'];
    let path = text.take(path_len(text));
    if occurs(text, q) {
        let at = choose|at: int| occurs_at(text, q, at);
        first_exists(text, q, at);
        single_occurs_at(text, '?', path_len(text));
    }
    if occurs(path, q) {
        let at = choose|at: int| occurs_at(path, q, at);
        single_occurs_at(path, '?', at);
        single_occurs_at(text, '?', at);
        assert(path[at] == text[at]);
        assert(occurs_at(text, q, at));
    }
}

/// Where a needle occurs at all, it has a first occurrence, at or before any
/// place where it stands.
pub proof fn first_exists(s: Seq<char>, needle: Seq<char>, at: int)
    requires
        occurs_at(s, needle, at),
    ensures
        occurs(s, needle),
        exists|first: int| first_occurrence(s, needle, first),
        first_occurrence(s, needle, choose|first: int| first_occurrence(s, needle, first)),
        (choose|first: int| first_occurrence(s, needle, first)) <= at,
    decreases at,
{
    if exists|j: int| 0 <= j < at && occurs_at(s, needle, j) {
        let j = choose|j: int| 0 <= j < at && occurs_at(s, needle, j);
        first_exists(s, needle, j);
    } else {
        assert(first_occurrence(s, needle, at));
        let first = choose|first: int| first_occurrence(s, needle, first);
        first_occurrence_is_unique(s, needle, first, at);
    }
}

/// The text of a target: the scheme with `://`, the authority, the path, and the
/// query behind `?`, each where the target has it.
pub open spec fn uri_text(uri: UriView) -> Seq<char> {
    let scheme = match uri.scheme {
        Some(s) => s + "://"@,
        None => Seq::empty(),
    };
    let authority = match uri.authority {
        Some(a) => a,
        None => Seq::empty(),
    };
    let query = match uri_query(uri) {
        Some(q) => seq!['?'] + q,
        None => Seq::empty(),
    };
    scheme + authority + uri_path(uri) + query
}

impl Clone for Uri {
    fn clone(&self) -> (copy: Self)
        ensures
            copy@ == self@,
    {
        proof {
            use_type_invariant(self);
        }
        Uri {
            scheme: self.scheme.clone(),
            authority: self.authority.clone(),
            path_and_query: self.path_and_query.clone(),
        }
    }
}

impl Uri {
    #[verifier::type_invariant]
    spec fn parts_fit(self) -> bool {
        well_formed(self@)
    }

    /// The scheme of this target, where it has one.
    pub fn scheme(&self) -> (scheme: &Option<String>)
        ensures
            scheme.deep_view() == self@.scheme,
            well_formed(self@),
    {
        proof {
            use_type_invariant(self);
        }
        &self.scheme
    }

    /// The authority of this target, where it has one.
    pub fn authority(&self) -> (authority: &Option<String>)
        ensures
            authority.deep_view() == self@.authority,
            well_formed(self@),
    {
        proof {
            use_type_invariant(self);
        }
        &self.authority
    }

    /// The text of path and query of this target, where it has one.
    pub fn path_and_query(&self) -> (text: &Option<String>)
        ensures
            text.deep_view() == self@.path_and_query,
            well_formed(self@),
    {
        proof {
            use_type_invariant(self);
        }
        &self.path_and_query
    }

    /// Writes this target as text.
    pub fn text(&self) -> (text: String)
        ensures
            text@ == uri_text(self@),
    {
        let mut text = String::new();
        if let Some(scheme) = &self.scheme {
            text.append(scheme.as_str());
            text.append("://");
        }
        if let Some(authority) = &self.authority {
            text.append(authority.as_str());
        }
        let path = self.path();
        text.append(path.as_str());
        if let Some(query) = self.query() {
            proof {
                reveal_strlit("?");
                assert("?"@ =~= seq!['?']);
            }
            text.append("?");
            text.append(query.as_str());
        }
        assert(text@ =~= uri_text(self@));
        text
    }

    /// Builds a target from its parts. A scheme asks for an authority and a path;
    /// an authority with a path asks for a scheme; and the text of path and query
    /// holds no `#`.
    pub fn from_parts(
        scheme: Option<String>,
        authority: Option<String>,
        path_and_query: Option<String>,
    ) -> (r: Result<Uri, InvalidUriParts>)
        ensures
            match r {
                Ok(uri) => Ok(uri@),
                Err(e) => Err(e),
            } == uri_from_parts(
                scheme.deep_view(),
                authority.deep_view(),
                path_and_query.deep_view(),
            ),
    {
        if scheme.is_some() {
            if authority.is_none() {
                return Err(InvalidUriParts::AuthorityMissing);
            }
            if path_and_query.is_none() {
                return Err(InvalidUriParts::PathAndQueryMissing);
            }
        } else if authority.is_some() && path_and_query.is_some() {
            return Err(InvalidUriParts::SchemeMissing);
        }
        if let Some(text) = &path_and_query {
            proof {
                reveal_strlit("#");
                assert("#"@ =~= seq!['#']);
            }
            if split_once(text.as_str(), "#").is_some() {
                return Err(InvalidUriParts::Fragment);
            }
        }
        Ok(Uri { scheme, authority, path_and_query })
    }

    /// The path of this target.
    pub fn path(&self) -> (path: String)
        ensures
            path@ == uri_path(self@),
            well_formed(self@),
    {
        proof {
            use_type_invariant(self);
        }
        match &self.path_and_query {
            None => String::new(),
            Some(text) => {
                let path = match split_once(text.as_str(), "?") {
                    Some((before, _)) => {
                        proof {
                            reveal_strlit("?");
                            assert("?"@ =~= seq!['?']);
                            first_occurrence_is_unique(
                                text@,
                                seq!['?'],
                                before@.len() as int,
                                path_len(text@),
                            );
                            assert(text@.take(before@.len() as int) =~= before@);
                        }
                        before
                    },
                    None => {
                        proof {
                            reveal_strlit("?");
                            assert("?"@ =~= seq!['?']);
                            assert(text@.take(text@.len() as int) =~= text@);
                        }
                        text.as_str()
                    },
                };
                if !path.is_empty() {
                    path.to_owned()
                } else if text.as_str().is_empty() && self.scheme.is_none() {
                    String::new()
                } else {
                    proof {
                        reveal_strlit("/");
                        assert("/"@ =~= seq!['/']);
                    }
                    "/".to_owned()
                }
            },
        }
    }

    /// The query of this target, if it has one.
    pub fn query(&self) -> (query: Option<String>)
        ensures
            query.deep_view() == uri_query(self@),
    {
        match &self.path_and_query {
            None => None,
            Some(text) => match split_once(text.as_str(), "?") {
                Some((before, after)) => {
                    proof {
                        reveal_strlit("?");
                        assert("?"@ =~= seq!['?']);
                        first_occurrence_is_unique(
                            text@,
                            seq!['?'],
                            before@.len() as int,
                            path_len(text@),
                        );
                        assert(text@.skip(before@.len() as int + 1) =~= after@);
                    }
                    Some(after.to_owned())
                },
                None => {
                    proof {
                        reveal_strlit("?");
                        assert("?"@ =~= seq!['?']);
                    }
                    None
                },
            },
        }
    }
}

} // verus!
