//! A small file-search library: a validated search configuration (root
//! paths, name patterns, entry-type filters) and the filtering rules that
//! decide which visited directory entries a scan reports.
//!
//! The caller (a command-line front end) parses the arguments, walks each
//! root path and renders one output block per root; this library builds the
//! configuration, decides which entries pass the filters, and produces each
//! block's text.

pub mod config;
pub mod pattern;
pub mod scan;

pub use config::Config;
pub use config::ConfigError;
pub use config::EntryType;
pub use config::build_configuration;
pub use config::entry_type_of_token;
pub use scan::Entry;
pub use scan::matching_paths;
pub use scan::passes_filters;
pub use scan::passes_name_filter;
pub use scan::passes_type_filter;
pub use scan::root_block;
