//! Rewriting the target of a request by rules in the manner of `mod_rewrite`,
//! before the request reaches its handler.

pub mod error;
pub mod rewrite;
pub mod service;
pub mod util;
