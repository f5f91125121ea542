//! Addresses of FastCGI application servers: a socket in the file system, or a
//! host and port.

use vstd::prelude::*;
use crate::text::{
    first_occurrence, first_occurrence_is_unique, lowercase, occurs, same, split_once,
    to_lowercase,
};

verus! {

/// The address of an application server, as its text names it.
#[derive(Debug, Clone, PartialEq, Eq)]
pub enum StreamAddr {
    /// The path of a socket in the file system.
    Unix(String),
    /// A host and a port, for the host to resolve.
    Tcp(String),
}

/// The mathematical value of a [`StreamAddr`].
pub enum StreamAddrView {
    Unix(Seq<char>),
    Tcp(Seq<char>),
}

impl View for StreamAddr {
    type V = StreamAddrView;

    open spec fn view(&self) -> StreamAddrView {
        match self {
            StreamAddr::Unix(path) => StreamAddrView::Unix(path@),
            StreamAddr::Tcp(addr) => StreamAddrView::Tcp(addr@),
        }
    }
}

/// The scheme and the rest of the text of an address: what stands before and
/// behind the first `://`, or `tcp` and the whole text where there is none.
pub open spec fn scheme_and_rest(text: Seq<char>) -> (Seq<char>, Seq<char>) {
    if occurs(text, "://"@) {
        let at = choose|at: int| first_occurrence(text, "://"@, at);
        (text.take(at), text.skip(at + 3))
    } else {
        ("tcp"@, text)
    }
}

/// The address that a text names: a socket in the file system where the scheme
/// reads `unix` in any case of letters, else a host and port.
pub open spec fn stream_addr_of(text: Seq<char>) -> StreamAddrView {
    let (scheme, rest) = scheme_and_rest(text);
    if lowercase(scheme) == "unix"@ {
        StreamAddrView::Unix(rest)
    } else {
        StreamAddrView::Tcp(rest)
    }
}

impl StreamAddr {
    /// Reads an address from its text, such as `unix:///run/app.sock`,
    /// `tcp://localhost:9000` or `192.168.0.2:9000`.
    pub fn parse(text: &str) -> (addr: StreamAddr)
        ensures
            addr@ == stream_addr_of(text@),
    {
        let (scheme, rest) = match split_once(text, "://") {
            Some((scheme, rest)) => {
                proof {
                    reveal_strlit("://");
                    first_occurrence_is_unique(
                        text@,
                        "://"@,
                        scheme@.len() as int,
                        choose|at: int| first_occurrence(text@, "://"@, at),
                    );
                    assert(text@.take(scheme@.len() as int) =~= scheme@);
                    assert(text@.skip(scheme@.len() as int + 3) =~= rest@);
                }
                (scheme, rest)
            },
            None => ("tcp", text),
        };
        let lower = to_lowercase(scheme);
        if same(lower.as_str(), "unix") {
            StreamAddr::Unix(rest.to_owned())
        } else {
            StreamAddr::Tcp(rest.to_owned())
        }
    }
}

} // verus!
