//! A client library whose single endpoint takes one required identifier and
//! two optional arguments, reachable through a family of interchangeable
//! construction styles: direct calls, parameter records, and several builders.
//! Every style resolves the caller's values into one canonical argument tuple
//! and hands it to the canonical invoker.

pub mod api;
pub mod builders;
pub mod convert;
pub mod laws;
pub mod model;
pub mod params;
