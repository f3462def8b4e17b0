//! A client library for a paginated issue-tracker REST service, together with
//! the state layer of a terminal front end.
//!
//! The library is organised around a small set of verified components:
//! JSON payload classification and record decoding, the paginated fetcher
//! that follows server-issued continuation cursors, and the pure state
//! machine (key routing, message dispatch) that a cooperative event loop
//! drives.  Network transport is abstracted behind the [`transport::HTTPClient`]
//! trait, with a real HTTP implementation and a deterministic offline one.

pub mod app;
pub mod decode;
pub mod events;
pub mod fake;
pub mod fetch;
pub mod json;
pub mod messages;
pub mod model;
pub mod status;
pub mod text;
pub mod transport;

pub use status::StatusFilter;
