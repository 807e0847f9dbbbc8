//! A diagnostic capture library: it filters and orders the frames of a call
//! stack, reads the source lines around the deepest one, and assembles the
//! record that is sent to a collector.

pub mod code_snippet;
pub mod frame;
pub mod log;
pub mod text;
pub mod transport;
pub mod warning;

pub use code_snippet::CodeSnippet;
pub use frame::{BacktraceData, ResolvedSymbol};
pub use log::{Log, Message};
pub use warning::Warning;
