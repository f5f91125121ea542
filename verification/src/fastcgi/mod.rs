//! A client service for FastCGI application servers: the settings of the
//! service and the parameters that it sends with a request.

pub mod factory;
pub mod params;
pub mod service;
pub mod stream;
