//! Harvesting icon code points from a two-level documentation site.
//!
//! The crate holds the decisions of the harvest: which entries of the index
//! page become candidates, how a detail page yields a code point, how the
//! settled tasks are gathered into a batch, and what the driver is told to do
//! next. Network and file access stay with the caller.

pub mod batch;
pub mod error;
pub mod fetch;
pub mod hex;
pub mod html;
pub mod message;
pub mod model;
pub mod resolve;
pub mod run;
