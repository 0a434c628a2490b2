//! The safe core of a binding to the OpenCC (Open Chinese Convert) engine.
//!
//! The engine itself is a native library and is never called from here. This
//! crate holds everything a binding decides around those calls: which strings
//! may cross the boundary and how they are framed, how the engine's failure
//! signals become typed errors, how returned bytes become text, and which
//! dictionary files each built-in configuration needs on disk.
//!
//! * [`config`]: the built-in configurations and their file names.
//! * [`converter`]: the handle, and the two halves of each of its operations.
//! * [`operation`]: the operations from end to end, and what holds of them.
//! * [`dictionary`]: the files of the reference dictionaries, and the list of
//!   files of each configuration.
//! * [`materialize`]: what is to be written so that a directory holds the files
//!   of a configuration.
//! * [`error`] and [`text`]: the errors, and bytes and text at the boundary.

pub mod config;
pub mod converter;
pub mod dictionary;
pub mod error;
pub mod materialize;
pub mod operation;
pub mod text;

pub use config::DefaultConfig;
pub use converter::OpenCC;
pub use dictionary::StaticDictionary;
pub use error::OpenCCError;
pub use materialize::generate_static_dictionaries;
pub use materialize::generate_static_dictionary;
