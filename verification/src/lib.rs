//! A minimal HTTP request processor with sessions that a cookie addresses.
//!
//! - [`request`] decodes a request: its text, its route, its session cookie
//!   and its body.
//! - [`session`] is the session store.
//! - [`router`] holds the handlers and routes a request to one of them.
//! - [`response`] encodes an answer for the wire.
//! - [`worker`] says what is done for a connection, step by step.
//! - [`text`] and [`decimal`] are the model of text and of numerals that the
//!   others are stated in.
//!
//! The library reads and writes nothing and takes no lock: a server does that
//! around it, as a worker tells it to.

pub mod decimal;
pub mod request;
pub mod response;
pub mod router;
pub mod session;
pub mod text;
pub mod worker;
