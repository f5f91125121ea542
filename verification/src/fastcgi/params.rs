//! The parameters of a FastCGI request, kept in the collection of the FastCGI
//! client.

use fastcgi_client::Params;
use vstd::prelude::*;
use crate::text::decimal;

verus! {

#[verifier::external_type_specification]
#[verifier::external_body]
pub struct ExParams<'a>(fastcgi_client::Params<'a>);

/// What a collection of parameters holds: the value under each name.
pub uninterp spec fn params_map(params: Params<'static>) -> Map<Seq<char>, Seq<char>>;

/// The parameters that every request starts from.
pub open spec fn default_params() -> Map<Seq<char>, Seq<char>> {
    Map::<Seq<char>, Seq<char>>::empty().insert("GATEWAY_INTERFACE"@, "FastCGI/1.0"@).insert(
        "SERVER_SOFTWARE"@,
        "fastcgi-client-rs"@,
    ).insert("SERVER_PROTOCOL"@, "HTTP/1.1"@)
}

/// Trusted: `fastcgi_client::Params::default`, which holds the gateway interface,
/// the server software and the server protocol.
#[verifier::external_body]
pub(crate) fn new_params() -> (params: Params<'static>)
    ensures
        params_map(params) == default_params(),
{
    Params::default()
}

/// Trusted: `fastcgi_client::Params::custom`, which puts a value under a name,
/// in the place of the value that the name had.
#[verifier::external_body]
pub(crate) fn custom(params: Params<'static>, name: String, value: String) -> (r: Params<'static>)
    ensures
        params_map(r) == params_map(params).insert(name@, value@),
{
    params.custom(name, value)
}

/// Trusted: `fastcgi_client::Params::document_uri`, which puts a value under
/// `DOCUMENT_URI`.
#[verifier::external_body]
pub(crate) fn document_uri(params: Params<'static>, value: String) -> (r: Params<'static>)
    ensures
        params_map(r) == params_map(params).insert("DOCUMENT_URI"@, value@),
{
    params.document_uri(value)
}

/// Trusted: `fastcgi_client::Params::document_root`, which puts a value under
/// `DOCUMENT_ROOT`.
#[verifier::external_body]
pub(crate) fn document_root(params: Params<'static>, value: String) -> (r: Params<'static>)
    ensures
        params_map(r) == params_map(params).insert("DOCUMENT_ROOT"@, value@),
{
    params.document_root(value)
}

/// Trusted: `fastcgi_client::Params::request_method`, which puts a value under
/// `REQUEST_METHOD`.
#[verifier::external_body]
pub(crate) fn request_method(params: Params<'static>, value: String) -> (r: Params<'static>)
    ensures
        params_map(r) == params_map(params).insert("REQUEST_METHOD"@, value@),
{
    params.request_method(value)
}

/// Trusted: `fastcgi_client::Params::request_uri`, which puts a value under
/// `REQUEST_URI`.
#[verifier::external_body]
pub(crate) fn request_uri(params: Params<'static>, value: String) -> (r: Params<'static>)
    ensures
        params_map(r) == params_map(params).insert("REQUEST_URI"@, value@),
{
    params.request_uri(value)
}

/// Trusted: `fastcgi_client::Params::script_name`, which puts a value under
/// `SCRIPT_NAME`.
#[verifier::external_body]
pub(crate) fn script_name(params: Params<'static>, value: String) -> (r: Params<'static>)
    ensures
        params_map(r) == params_map(params).insert("SCRIPT_NAME"@, value@),
{
    params.script_name(value)
}

/// Trusted: `fastcgi_client::Params::script_filename`, which puts a value under
/// `SCRIPT_FILENAME`.
#[verifier::external_body]
pub(crate) fn script_filename(params: Params<'static>, value: String) -> (r: Params<'static>)
    ensures
        params_map(r) == params_map(params).insert("SCRIPT_FILENAME"@, value@),
{
    params.script_filename(value)
}

/// Trusted: `fastcgi_client::Params::server_name`, which puts a value under
/// `SERVER_NAME`.
#[verifier::external_body]
pub(crate) fn server_name(params: Params<'static>, value: String) -> (r: Params<'static>)
    ensures
        params_map(r) == params_map(params).insert("SERVER_NAME"@, value@),
{
    params.server_name(value)
}

/// Trusted: `fastcgi_client::Params::server_addr`, which puts a value under
/// `SERVER_ADDR`.
#[verifier::external_body]
pub(crate) fn server_addr(params: Params<'static>, value: String) -> (r: Params<'static>)
    ensures
        params_map(r) == params_map(params).insert("SERVER_ADDR"@, value@),
{
    params.server_addr(value)
}

/// Trusted: `fastcgi_client::Params::server_port`, which puts the decimal digits
/// of a port under `SERVER_PORT`.
#[verifier::external_body]
pub(crate) fn server_port(params: Params<'static>, port: u16) -> (r: Params<'static>)
    ensures
        params_map(r) == params_map(params).insert("SERVER_PORT"@, decimal(port as nat)),
{
    params.server_port(port)
}

/// Trusted: `fastcgi_client::Params::remote_addr`, which puts a value under
/// `REMOTE_ADDR`.
#[verifier::external_body]
pub(crate) fn remote_addr(params: Params<'static>, value: String) -> (r: Params<'static>)
    ensures
        params_map(r) == params_map(params).insert("REMOTE_ADDR"@, value@),
{
    params.remote_addr(value)
}

/// Trusted: `fastcgi_client::Params::remote_port`, which puts the decimal digits
/// of a port under `REMOTE_PORT`.
#[verifier::external_body]
pub(crate) fn remote_port(params: Params<'static>, port: u16) -> (r: Params<'static>)
    ensures
        params_map(r) == params_map(params).insert("REMOTE_PORT"@, decimal(port as nat)),
{
    params.remote_port(port)
}

} // verus!
