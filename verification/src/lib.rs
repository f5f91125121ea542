//! A fallback dispatch chain for request handlers: an ordered sequence of guarded
//! stages, each of which may answer a request or let it fall through to the next.
//!
//! The chain is declared with [`Chain`] and [`Link`], compiled into a
//! [`ChainService`] once the handlers of its stages are made, and then takes
//! requests through its stages by the decisions of the dispatcher. Beside it
//! stand two of the services that it is used with: a client for FastCGI
//! application servers and a rewrite service.

pub mod factory;
pub mod fastcgi;
pub mod link;
pub mod next;
pub mod request;
pub mod response;
pub mod rewrite;
pub mod service;
pub mod status;
pub mod text;
pub mod uri;

pub use factory::Chain;
pub use link::Link;
pub use service::ChainService;
