//! The parts of an HTTP request that the library decides on.
use vstd::prelude::*;

verus! {

/// A request method. Methods outside the standard set are `Other`.
#[derive(Clone, Copy, Debug, PartialEq, Eq, Structural)]
pub enum Method {
    Get,
    Head,
    Post,
    Put,
    Delete,
    Connect,
    Options,
    Trace,
    Patch,
    Other,
}

} // verus!
