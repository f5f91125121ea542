//! Responses as the chain reads them: a status, header lines and a body.

use vstd::prelude::*;
use crate::status::StatusCode;
use crate::text::same;

verus! {

/// A response: what a handler gives back for a request.
///
/// Header names are held as the host normalises them, in lower case.
#[derive(Debug, Clone, PartialEq, Eq)]
pub struct Response {
    pub status: StatusCode,
    pub headers: Vec<(String, String)>,
    pub body: Vec<u8>,
}

/// The mathematical value of a [`Response`].
pub struct ResponseView {
    pub status: StatusCode,
    pub headers: Seq<(Seq<char>, Seq<char>)>,
    pub body: Seq<u8>,
}

impl View for Response {
    type V = ResponseView;

    open spec fn view(&self) -> ResponseView {
        ResponseView {
            status: self.status,
            headers: self.headers.deep_view(),
            body: self.body@,
        }
    }
}

/// Whether a response carries a header line of the given name.
pub open spec fn has_header(res: ResponseView, name: Seq<char>) -> bool {
    exists|i: int| 0 <= i < res.headers.len() && (#[trigger] res.headers[i]).0 == name
}

impl Response {
    /// A response of the given status without header lines and with an empty body.
    pub fn new(status: StatusCode) -> (res: Response)
        ensures
            res@ == (ResponseView { status, headers: Seq::empty(), body: Seq::empty() }),
    {
        let res = Response { status, headers: Vec::new(), body: Vec::new() };
        assert(res.headers.deep_view() =~= Seq::empty());
        res
    }

    /// Whether this response carries a header line of the given name.
    pub fn contains_header(&self, name: &str) -> (found: bool)
        ensures
            found == has_header(self@, name@),
    {
        let mut i: usize = 0;
        while i < self.headers.len()
            invariant
                i <= self.headers.len(),
                forall|j: int| 0 <= j < i ==> (#[trigger] self@.headers[j]).0 != name@,
            decreases self.headers.len() - i,
        {
            assert(self@.headers[i as int] == self.headers@[i as int].deep_view());
            if same(self.headers[i].0.as_str(), name) {
                return true;
            }
            i += 1;
        }
        false
    }
}

} // verus!
