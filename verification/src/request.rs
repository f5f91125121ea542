//! Requests as the services read them.

use vstd::prelude::*;
use crate::uri::{Uri, UriView};

verus! {

/// One end of a connection: the text of an IP address, and a port.
#[derive(Debug, Clone, PartialEq, Eq)]
pub struct Endpoint {
    pub ip: String,
    pub port: u16,
}

/// The head of a request, with what the host knows of the connection.
#[derive(Debug, Clone, PartialEq, Eq)]
pub struct RequestHead {
    /// The method, as it stands in the request line.
    pub method: String,
    /// The target.
    pub uri: Uri,
    /// The name of the host that the request is for.
    pub host: String,
    /// The address on which the server took the request.
    pub local_addr: Endpoint,
    /// The address of the client, where it is known.
    pub peer_addr: Option<Endpoint>,
    /// The header lines in order: the name in lower case, and the value where
    /// it is text.
    pub headers: Vec<(String, Option<String>)>,
}

/// The mathematical value of a [`RequestHead`].
pub struct RequestHeadView {
    pub method: Seq<char>,
    pub uri: UriView,
    pub host: Seq<char>,
    pub local_addr: (Seq<char>, u16),
    pub peer_addr: Option<(Seq<char>, u16)>,
    pub headers: Seq<(Seq<char>, Option<Seq<char>>)>,
}

impl View for RequestHead {
    type V = RequestHeadView;

    open spec fn view(&self) -> RequestHeadView {
        RequestHeadView {
            method: self.method@,
            uri: self.uri@,
            host: self.host@,
            local_addr: (self.local_addr.ip@, self.local_addr.port),
            peer_addr: match self.peer_addr {
                Some(peer) => Some((peer.ip@, peer.port)),
                None => None,
            },
            headers: self.headers.deep_view(),
        }
    }
}

} // verus!
