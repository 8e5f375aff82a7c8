//! Verified core of the C bindings of the Arnelify server: decoding of the
//! arguments that C hands over, reading of the server options, the tables of
//! servers and of in-flight streams, and the decisions that every binding makes.
use vstd::prelude::*;

pub mod bindings;
pub mod config;
pub mod decimal;
pub mod headers;
pub mod json;
pub mod laws;
pub mod options;
pub mod servers;
pub mod service;
pub mod streams;
pub mod text;

verus! {
} // verus!
