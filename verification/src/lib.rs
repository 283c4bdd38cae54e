//! Selection and aggregation engine for packing a directory tree into one
//! text file.
//!
//! The engine decides which files of a tree belong in the aggregate, renders
//! the aggregate entry by entry, and guards an output file that is already
//! there. It performs no I/O: a driver walks the tree, reads the files,
//! writes the text and talks to the operator.

pub mod aggregate;
pub mod constants;
pub mod filter;
pub mod guard;
pub mod laws;
pub mod processor;
pub mod rules;
pub mod text;

pub use aggregate::Aggregator;
pub use filter::Filter;
pub use guard::{ExistingOutput, OutputDecision, UnreadableOutput};
pub use processor::{DirectoryProcessor, RunReport, WalkAction, WalkEntry};
pub use rules::{
    create_exclusions, get_default_exclusions, ConfigError, ExclusionRuleSet, GlobRule,
};
