//! Resetting the persisted machine identity of a desktop application.
//!
//! The crate holds the decisions of an identity reset: which identifiers are
//! generated, how the application's JSON configuration is rewritten, when the
//! application's processes count as stopped, and how the system identity
//! value is rotated. Every effect on the machine is requested through an
//! action value that the caller performs and answers with an event.

pub mod backup;
pub mod config;
pub mod engine;
pub mod ident;
pub mod json;
pub mod process;
pub mod store;
pub mod text;
