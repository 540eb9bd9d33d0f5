//! Request/response bridge between native code and an embedded web page.
//!
//! A native caller asks the page a question under a fresh correlation id,
//! parks a single-use response slot in a [`store::CorrelationStore`], and
//! settles the request once the page answers, the slot is abandoned, or a
//! timeout elapses.

pub mod slot;
pub mod store;
pub mod ident;
pub mod relay;
pub mod bridge;
pub mod laws;
