//! A strongly typed configuration container.
//!
//! A configuration is a value of a type of the caller's own. It is decoded
//! from the text of a file whose extension selects the format (JSON, TOML or
//! YAML), kept behind a read/write lock, and encoded again in the format that
//! the extension of its origin path names.
//!
//! The library decides and computes; it never touches the file system. The
//! caller reads the file and hands over what the read gave, and writes the
//! text that a save hands back.

pub mod codec;
pub mod config;
pub mod error;
pub mod laws;
pub mod manager;
pub mod resolver;

pub use crate::config::Config;
pub use crate::config::ConfigBuilder;
pub use crate::config::LoadState;
pub use crate::config::Lock;
pub use crate::error::Error;
pub use crate::error::ErrorView;
pub use crate::manager::for_file;
pub use crate::manager::Loader;
pub use crate::resolver::Format;
