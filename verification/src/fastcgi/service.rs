//! The assembled FastCGI service and the parameters of its requests.

use std::rc::Rc;
use fastcgi_client::Params;
use vstd::prelude::*;
use vstd::string::StringExecFns;
use crate::fastcgi::params::{
    custom, default_params, document_root, document_uri, new_params, params_map, remote_addr,
    remote_port, request_method, request_uri, script_filename, script_name, server_addr,
    server_name, server_port,
};
use crate::request::{RequestHead, RequestHeadView};
use crate::text::{decimal, replace, replaced, same, to_uppercase, uppercase};
use crate::uri::uri_path;

verus! {

/// What an assembled FastCGI service knows of its surroundings.
pub struct FastCGIInner {
    /// The directory below which the scripts lie.
    pub root: String,
    /// The address of the FastCGI application server.
    pub fastcgi_address: String,
}

/// An assembled FastCGI service: its settings, shared by its clones.
#[derive(Clone)]
pub struct FastCGIService(pub Rc<FastCGIInner>);

/// The name of the parameter that carries a header line: `CONTENT_TYPE` and
/// `CONTENT_LENGTH` for the two headers of the body, and for every other header
/// `HTTP_` and its name in upper case with `_` for `-`.
pub open spec fn param_name_of(header: Seq<char>) -> Seq<char> {
    if header == "content-type"@ {
        "CONTENT_TYPE"@
    } else if header == "content-length"@ {
        "CONTENT_LENGTH"@
    } else {
        "HTTP_"@ + uppercase(replaced(header, "-"@, "_"@))
    }
}

/// The name of the parameter that carries a header line.
pub fn param_name(header: &str) -> (name: String)
    ensures
        name@ == param_name_of(header@),
{
    if same(header, "content-type") {
        "CONTENT_TYPE".to_owned()
    } else if same(header, "content-length") {
        "CONTENT_LENGTH".to_owned()
    } else {
        proof {
            reveal_strlit("-");
        }
        let name = replace(header, "-", "_");
        let mut param = "HTTP_".to_owned();
        param.append(to_uppercase(name.as_str()).as_str());
        param
    }
}

/// The parameters `base` with the header lines put in, one after the other: each
/// line whose value is text, under the name of its parameter.
pub open spec fn with_headers(
    base: Map<Seq<char>, Seq<char>>,
    headers: Seq<(Seq<char>, Option<Seq<char>>)>,
) -> Map<Seq<char>, Seq<char>>
    decreases headers.len(),
{
    if headers.len() == 0 {
        base
    } else {
        let next = match headers[0].1 {
            Some(value) => base.insert(param_name_of(headers[0].0), value),
            None => base,
        };
        with_headers(next, headers.skip(1))
    }
}

/// The parameters of a request: those that every request starts from, then the
/// script, the method, the path and the server, then the header lines, and last
/// the address of the client where it is known.
pub open spec fn params_of(
    document_root: Seq<char>,
    script_filename: Seq<char>,
    path: Seq<char>,
    req: RequestHeadView,
) -> Map<Seq<char>, Seq<char>> {
    let script_name = seq!['/'] + path;
    let fixed = default_params().insert("DOCUMENT_URI"@, script_name).insert(
        "DOCUMENT_ROOT"@,
        document_root,
    ).insert("REQUEST_METHOD"@, req.method).insert("REQUEST_URI"@, uri_path(req.uri)).insert(
        "SCRIPT_NAME"@,
        script_name,
    ).insert("SCRIPT_FILENAME"@, script_filename).insert("SERVER_NAME"@, req.host).insert(
        "SERVER_ADDR"@,
        req.local_addr.0,
    ).insert("SERVER_PORT"@, decimal(req.local_addr.1 as nat));
    let sent = with_headers(fixed, req.headers);
    match req.peer_addr {
        Some((ip, port)) => sent.insert("REMOTE_ADDR"@, ip).insert(
            "REMOTE_PORT"@,
            decimal(port as nat),
        ),
        None => sent,
    }
}

impl std::ops::Deref for FastCGIService {
    type Target = FastCGIInner;

    /// The settings of this service.
    fn deref(&self) -> (inner: &FastCGIInner)
        ensures
            *inner == *self.0,
    {
        &self.0
    }
}

impl FastCGIService {

    /// Fills the parameters of a request: `root` is the path of the script below
    /// the root directory, `path` is the path of the script as the target names
    /// it, and `req` is the request.
    pub fn fill_params(&self, root: &str, path: &str, req: &RequestHead) -> (params: Params<
        'static,
    >)
        ensures
            params_map(params) == params_of(self.0.root@, root@, path@, req@),
    {
        let mut name = "/".to_owned();
        name.append(path);
        proof {
            reveal_strlit("/");
            assert(name@ =~= seq!['/'] + path@);
        }
        let mut params = new_params();
        params = document_uri(params, name.clone());
        params = document_root(params, self.0.root.clone());
        params = request_method(params, req.method.clone());
        params = request_uri(params, req.uri.path());
        params = script_name(params, name);
        params = script_filename(params, root.to_owned());
        params = server_name(params, req.host.clone());
        params = server_addr(params, req.local_addr.ip.clone());
        params = server_port(params, req.local_addr.port);

        let ghost fixed = params_map(params);
        let ghost all = req.headers.deep_view();
        assert(all.skip(0) =~= all);
        let mut i: usize = 0;
        while i < req.headers.len()
            invariant
                i <= req.headers.len(),
                all == req.headers.deep_view(),
                with_headers(fixed, all) == with_headers(params_map(params), all.skip(i as int)),
            decreases req.headers.len() - i,
        {
            let ghost rest = all.skip(i as int);
            assert(rest[0] == req.headers@[i as int].deep_view());
            assert(rest.skip(1) =~= all.skip(i + 1));
            let line = &req.headers[i];
            if let Some(value) = &line.1 {
                params = custom(params, param_name(line.0.as_str()), value.clone());
            }
            i += 1;
        }
        assert(all.skip(all.len() as int) =~= Seq::empty());

        if let Some(peer) = &req.peer_addr {
            params = remote_addr(params, peer.ip.clone());
            params = remote_port(params, peer.port);
        }
        params
    }
}

} // verus!
