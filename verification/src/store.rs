//! The key-value store behind a `Settings`: `config::Config`, kept behind
//! trusted declarations.  What the store holds is named by uninterpreted
//! spec functions; the one method the logic calls, `get_string`, gets a
//! wrapper whose contract classifies every outcome of the lookup.

use vstd::prelude::*;
use crate::errors::SettingsError;

verus! {

#[verifier::external_type_specification]
#[verifier::external_body]
pub struct ExConfig(config::Config);

/// The string-valued reading of a store: the map from each dotted key on
/// which `config::Config::get_string` succeeds to the string it returns.
pub uninterp spec fn store_strings(c: config::Config) -> Map<Seq<char>, Seq<char>>;

/// The dotted keys at which the store holds a value of any kind (string or
/// not): those on which `config::Config::get_value` finds one.
pub uninterp spec fn store_keys(c: config::Config) -> Set<Seq<char>>;

/// Whether a key string is a well-formed dotted key: whether the path parser
/// behind `config::Config::get_string` accepts it.  The parser reads the key
/// alone, so this is a function of the key.
pub uninterp spec fn valid_key(k: Seq<char>) -> bool;

/// Relies on config::Config::get_string, which parses `key` as a dotted
/// path, looks it up, and coerces the value found to a string: it returns
/// `ConfigError::NotFound` exactly when the key parses but no value is at
/// it, a path-parse error exactly when the key does not parse, and a
/// conversion error exactly when a value is found that no string represents.
#[verifier::external_body]
pub(crate) fn store_get_string(c: &config::Config, key: &str) -> (r: Result<
    String,
    SettingsError,
>)
    ensures
        match r {
            Ok(s) => valid_key(key@) && store_keys(*c).contains(key@) && store_strings(
                *c,
            ).contains_key(key@) && s@ == store_strings(*c)[key@],
            Err(e) => !store_strings(*c).contains_key(key@) && match e {
                SettingsError::MissingKey(k) => k@ == key@ && valid_key(key@) && !store_keys(
                    *c,
                ).contains(key@),
                SettingsError::InvalidKey(k) => k@ == key@ && !valid_key(key@) && !store_keys(
                    *c,
                ).contains(key@),
                SettingsError::WrongType(k) => k@ == key@ && valid_key(key@) && store_keys(
                    *c,
                ).contains(key@),
                _ => false,
            },
        },
{
    match c.get_string(key) {
        Ok(s) => Ok(s),
        Err(config::ConfigError::NotFound(k)) => Err(SettingsError::MissingKey(k)),
        Err(config::ConfigError::PathParse { .. }) => Err(
            SettingsError::InvalidKey(key.to_string()),
        ),
        Err(_) => Err(SettingsError::WrongType(key.to_string())),
    }
}

/// Relies on config::Config::builder, ConfigBuilder::add_source,
/// config::File::with_name and ConfigBuilder::build: reads the named file
/// and parses it into a store.  The outcome depends on the filesystem, so
/// nothing is promised of it; a failure comes back as the parser's message.
#[verifier::external_body]
pub(crate) fn load_store(path: &str) -> (r: Result<config::Config, String>) {
    match config::Config::builder().add_source(config::File::with_name(path)).build() {
        Ok(c) => Ok(c),
        Err(e) => Err(format!("{e}")),
    }
}

} // verus!
