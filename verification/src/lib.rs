//! The decision core of a launcher plugin that searches a code-hosting service.
//!
//! The plugin answers free-text queries typed into a host launcher. Everything
//! that waits (reading requests, the remote call, writing responses) lives
//! outside this crate; what is here decides, for each thing that happens, how
//! the plugin's state changes and what has to be done next.
//!
//! - [`text`] and [`query`]: the grammar of what the user types.
//! - [`model`] and [`launcher`]: repositories, results, and the host's messages.
//! - [`store`] and [`bus`]: the results last shown, and the cancellation signal.
//! - [`worker`]: one search, from the question to what becomes of the answer.
//! - [`context`]: the coordinator that answers requests and installs results.
//! - [`history`]: what holds of the coordinator over any course of events.

pub mod bus;
pub mod config;
pub mod context;
pub mod history;
pub mod launcher;
pub mod model;
pub mod query;
pub mod store;
pub mod text;
pub mod worker;

pub use crate::context::SearchContext;
