//! The HTTP front of the workspace: where the server listens, how it answers
//! cross-origin requests, which handler answers each request, and the
//! decisions of the inbox's trash lookup.
//!
//! - [`address`]: the listening address for a port.
//! - [`config`]: the cross-origin policy and the static site settings.
//! - [`endpoint`]: the endpoints of the API, their paths and methods.
//! - [`middleware`]: the layers each request passes.
//! - [`routing`]: where a request goes.
//! - [`trash`]: the trash lookup as a state machine.
//! - [`text`]: character-level helpers.
use vstd::prelude::*;

pub mod address;
pub mod config;
pub mod endpoint;
pub mod http;
pub mod middleware;
pub mod routing;
pub mod text;
pub mod trash;

verus! {
} // verus!
