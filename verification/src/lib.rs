//! Crash analysis for a monitored application: the protocol and data layer of an
//! out-of-process exception handler.
pub mod annotations;
pub mod application;
pub mod client;
pub mod command_line;
pub mod hang;
pub mod host;
pub mod layout;
pub mod memory;
pub mod paths;
pub mod pipeline;
pub mod process_parameters;
pub mod report;
pub mod shared_state;
pub mod text;
