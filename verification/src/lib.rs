pub mod config;
pub mod default_source;
pub mod errors;
pub mod fmt;
pub mod memory_source;
pub mod merge;
pub mod parse;
pub mod path_match;
pub mod source;
pub mod sources_list;
pub mod toml_value;
