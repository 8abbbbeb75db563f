//! A language-server bridge for the Mago PHP toolchain: it builds Mago
//! command lines, turns Mago's textual reports into editor diagnostics and
//! carries the small amount of runtime policy (binary and workspace selection)
//! that the server and the editor extension share.
pub mod terms;
pub mod text;
pub mod diagnostics;
pub mod pattern;
pub mod parser;
pub mod command;
pub mod error;
pub mod executor;
pub mod runtime;
pub mod server;
pub mod extension;
pub use parser::parse_mago_output;
