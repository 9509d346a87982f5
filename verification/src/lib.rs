//! Text completion against one neural-network model that is loaded once and
//! shared, behind a lock, by every request.
//!
//! A request hands in the bytes of a prompt and gets back the bytes of the
//! output, cut down to the length that the backend reports and never longer
//! than the bound fixed for the process. Tokens are the backend's business.
//!
//! - [`metadata`] and [`number`] hold the configuration; [`wire`] says under
//!   which payload the backend receives it, and what holds of that payload.
//! - [`graph`] holds the graph handle and the path of one request through an
//!   execution context; [`record`] lists what is asked of the backend on the
//!   way.
//! - [`service`] holds the state that all requests share and serves them one
//!   at a time.
//! - [`error`] names the ways in which a request fails.
//! - [`outside`] is the boundary to the code that is believed, not proved.

pub mod error;
pub mod graph;
pub mod metadata;
pub mod number;
pub mod outside;
pub mod record;
pub mod service;
pub mod wire;
