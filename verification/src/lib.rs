//! Core of a tiny portfolio web server.
//!
//! The library has two halves. The first renders a fixed portfolio page as an
//! HTML string and frames it as a single HTTP response buffer; every byte of
//! that buffer is pinned down by the contracts in [`page`], [`numeral`] and
//! [`response`]. The second half is the connection server: [`server`] holds
//! the decision logic of the accept loop and of the per-connection handler as
//! verified step functions, and [`model`] proves the system-wide properties
//! (every client sees the same buffer, connections cannot affect one another,
//! a failed accept never stops the server) over a ghost state machine.
//!
//! All I/O — binding the socket, accepting, writing, logging — lives outside
//! the library; callers drive the step functions with the outcomes of those
//! operations.

pub mod model;
pub mod numeral;
pub mod page;
pub mod response;
pub mod server;
