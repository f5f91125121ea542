//! Continuation predicates: tests on a response that send the chain on to the
//! next stage in place of returning the response.

use vstd::prelude::*;
use crate::response::{has_header, Response, ResponseView};
use crate::status::StatusCode;

verus! {

/// A test on a response. Where it holds, the response is set aside and the next
/// stage of the chain, if there is one, is tried.
///
/// An implementation reads the status and the header lines only, and gives the
/// same answer for the same response.
pub trait Next {
    /// Whether this predicate holds of a response.
    spec fn holds(&self, res: ResponseView) -> bool;

    /// Tests a response.
    fn next(&self, res: &Response) -> (b: bool)
        ensures
            b == self.holds(res@),
    ;
}

/// Holds of the responses with one given status.
#[derive(Debug, Clone, Copy)]
pub struct IsStatus(pub StatusCode);

impl IsStatus {
    /// The predicate that holds of the responses with `status`.
    pub fn new(status: StatusCode) -> (p: IsStatus)
        ensures
            p.0 == status,
    {
        IsStatus(status)
    }
}

impl From<StatusCode> for IsStatus {
    fn from(value: StatusCode) -> (p: IsStatus) {
        IsStatus::new(value)
    }
}

impl vstd::std_specs::convert::FromSpecImpl<StatusCode> for IsStatus {
    open spec fn obeys_from_spec() -> bool {
        true
    }

    open spec fn from_spec(value: StatusCode) -> IsStatus {
        IsStatus(value)
    }
}

impl Next for IsStatus {
    open spec fn holds(&self, res: ResponseView) -> bool {
        res.status == self.0
    }

    fn next(&self, res: &Response) -> (b: bool) {
        res.status == self.0
    }
}

/// Holds of the responses that carry a header line of one given name.
#[derive(Debug, Clone)]
pub struct HasHeader(pub String);

impl HasHeader {
    /// The predicate that holds of the responses with a header line named
    /// `name`. Names are compared as they are written, and a response holds
    /// them in lower case.
    pub fn new(name: String) -> (p: HasHeader)
        ensures
            p.0 == name,
    {
        HasHeader(name)
    }
}

impl From<String> for HasHeader {
    fn from(value: String) -> (p: HasHeader) {
        HasHeader::new(value)
    }
}

impl vstd::std_specs::convert::FromSpecImpl<String> for HasHeader {
    open spec fn obeys_from_spec() -> bool {
        true
    }

    open spec fn from_spec(value: String) -> HasHeader {
        HasHeader(value)
    }
}

impl Next for HasHeader {
    open spec fn holds(&self, res: ResponseView) -> bool {
        has_header(res, self.0@)
    }

    fn next(&self, res: &Response) -> (b: bool) {
        res.contains_header(self.0.as_str())
    }
}

/// Whether any predicate of a sequence holds of a response.
pub open spec fn any_holds<N: Next>(predicates: Seq<N>, res: ResponseView) -> bool {
    exists|i: int| 0 <= i < predicates.len() && (#[trigger] predicates[i]).holds(res)
}

/// Tests a response against each predicate in turn and stops at the first that holds.
pub fn any_next<N: Next>(predicates: &Vec<N>, res: &Response) -> (b: bool)
    ensures
        b == any_holds(predicates@, res@),
{
    let mut i: usize = 0;
    while i < predicates.len()
        invariant
            i <= predicates.len(),
            forall|j: int| 0 <= j < i ==> !(#[trigger] predicates@[j]).holds(res@),
        decreases predicates.len() - i,
    {
        if predicates[i].next(res) {
            return true;
        }
        i += 1;
    }
    false
}

/// A predicate of a compiled stage: the one that stands in where none was
/// declared, or a declared one.
pub enum Rule<N> {
    /// Holds of the responses with one status.
    Status(IsStatus),
    /// A predicate that the stage declared.
    Declared(N),
}

impl<N: Next> Next for Rule<N> {
    open spec fn holds(&self, res: ResponseView) -> bool {
        match self {
            Rule::Status(p) => p.holds(res),
            Rule::Declared(p) => p.holds(res),
        }
    }

    fn next(&self, res: &Response) -> (b: bool) {
        match self {
            Rule::Status(p) => p.next(res),
            Rule::Declared(p) => p.next(res),
        }
    }
}

/// The predicates of a compiled stage for the declared ones: each declared one
/// in its place, or the test for status 404 alone where none was declared.
pub open spec fn rules_of<N>(declared: Seq<N>) -> Seq<Rule<N>> {
    if declared.len() == 0 {
        seq![Rule::Status(IsStatus(StatusCode::of(404)))]
    } else {
        Seq::new(declared.len(), |i: int| Rule::Declared(declared[i]))
    }
}

/// Builds the predicates of a compiled stage from the declared ones.
pub fn into_rules<N>(declared: Vec<N>) -> (rules: Vec<Rule<N>>)
    ensures
        rules@ == rules_of(declared@),
        rules@.len() >= 1,
{
    let mut rules: Vec<Rule<N>> = Vec::new();
    if declared.len() == 0 {
        rules.push(Rule::Status(IsStatus::new(StatusCode::not_found())));
        assert(rules@ =~= rules_of(declared@));
        return rules;
    }
    let ghost all = declared@;
    for n in it: declared
        invariant
            it.seq() == all,
            rules@.len() == it.index(),
            forall|j: int| 0 <= j < it.index() ==> #[trigger] rules@[j] == Rule::Declared(all[j]),
    {
        rules.push(Rule::Declared(n));
    }
    assert(rules@ =~= rules_of(all));
    rules
}

} // verus!
