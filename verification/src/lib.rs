//! Client-side logic for the NEIS open data hub (`open.neis.go.kr`).
//!
//! The hub answers a query page by page, and wraps each page in an envelope
//! that is named after the resource that was asked for. This library holds
//! what a client has to decide, and does no I/O itself:
//!
//! - [`types`] has the request parameters of each resource, which write
//!   themselves as a query string, and the records that come back;
//! - [`query`] writes query strings;
//! - [`client::response`] has the envelope, and says what each record type
//!   takes out of it;
//! - [`client`] has the paginated fetch: the URL of each page, what to make of
//!   each reply, and when to stop;
//! - [`client::laws`] states what holds of every fetch.

pub mod client;
pub mod error;
pub mod query;
pub mod text;
pub mod types;

pub use error::Error;
