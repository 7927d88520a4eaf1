//! Configuration loading: resolve a configuration file path (explicit or from
//! an environment-supplied default), parse the file into a key-value store,
//! and expose typed accessors over dotted keys.  Path-valued entries are
//! resolved relative to the directory the configuration file lives in.

pub mod errors;
pub mod paths;
mod fsio;
pub mod store;
pub mod settings;

pub use errors::SettingsError;
pub use settings::Settings;
