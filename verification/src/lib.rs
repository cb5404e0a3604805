//! Settings-path resolution and update-flow control for the imagers desktop shell.
//!
//! The crate holds the decisions only: which settings file is authoritative, what a
//! pointer file means, what a load yields, and how an update flow moves from state
//! to state. The shell around it performs the file and network work and reports
//! back what it saw.

pub mod error;
pub mod host;
pub mod pointer;
pub mod resolver;
pub mod settings;
pub mod store;
pub mod update;

pub use crate::resolver::AppState;
