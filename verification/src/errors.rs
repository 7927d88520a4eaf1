use vstd::prelude::*;

verus! {

/// Everything that can go wrong while loading a configuration or reading a
/// value out of it.  Each variant carries the piece of input it is about, so
/// a caller can report which path or key failed.
#[derive(Debug)]
pub enum SettingsError {
    /// No explicit path was given and the environment default was unset or
    /// empty.
    EnvVar,
    /// The candidate configuration file does not exist; carries the attempted
    /// path.
    NotFound(String),
    /// The candidate path exists but could not be canonicalized; carries the
    /// attempted path.
    Io(String),
    /// The file could not be read or parsed; carries the parser's message.
    Parse(String),
    /// The key is a well-formed dotted key but absent from the store; carries
    /// the key.
    MissingKey(String),
    /// The key is not a well-formed dotted key; carries the key.
    InvalidKey(String),
    /// The key is present but its value is not representable as a string;
    /// carries the key.
    WrongType(String),
    /// The key holds the empty string where a path was requested; carries the
    /// key.
    EmptyValue(String),
}

} // verus!
