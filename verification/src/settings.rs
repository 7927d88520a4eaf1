//! `Settings`: one loaded configuration file.  It owns the canonical
//! directory the file lives in, the file's name, and the parsed store, and
//! resolves path-valued entries relative to that directory.

use vstd::prelude::*;
use crate::errors::SettingsError;
use crate::fsio::{canonicalize_str, path_exists};
use crate::paths::{file_name_of, file_name_spec, is_abs, parent_of, resolve_value, resolve_value_spec};
use crate::store::{load_store, store_get_string, store_keys, store_strings, valid_key};

verus! {

/// A configuration loaded from one file.
#[derive(Debug)]
pub struct Settings {
    /// Canonical, absolute directory the configuration file lives in; the
    /// base against which relative path values are resolved.
    pub config_dir: String,
    /// Final path component of the path the file was loaded from.
    pub config_filename: String,
    settings: config::Config,
}

/// The path `Settings::new` tries to load: the explicit one when given,
/// else the non-empty environment default, else nothing.
pub open spec fn candidate_path(config_file: Option<&str>, env_default: Option<&str>) -> Option<
    Seq<char>,
> {
    match config_file {
        Some(f) => Some(f@),
        None => match env_default {
            Some(e) => if e@.len() > 0 {
                Some(e@)
            } else {
                None
            },
            None => None,
        },
    }
}

impl Settings {
    /// The characters of `config_dir`: the canonical directory the loaded
    /// configuration file lives in.
    pub closed spec fn dir_view(self) -> Seq<char> {
        self.config_dir@
    }

    /// The characters of `config_filename`: the final path component of the
    /// path the file was loaded from.
    pub closed spec fn filename_view(self) -> Seq<char> {
        self.config_filename@
    }

    /// The string-valued entries of this configuration: each dotted key the
    /// store can answer with a string, and that string.
    pub closed spec fn strings(self) -> Map<Seq<char>, Seq<char>> {
        store_strings(self.settings)
    }

    /// The dotted keys at which this configuration holds a value of any
    /// kind.
    pub closed spec fn keys(self) -> Set<Seq<char>> {
        store_keys(self.settings)
    }

    /// Loads a configuration file.  With `Some(path)` the file is the one
    /// named; with `None` it is named by `env_default`, the value of the
    /// caller's environment default (`DEFAULT_GLOBAL_CONFIG`), which must be
    /// set and non-empty.  On success the file's canonical parent directory
    /// and its name are captured beside the parsed store.
    pub fn new(config_file: Option<&str>, env_default: Option<&str>) -> (r: Result<
        Settings,
        SettingsError,
    >)
        ensures
            match r {
                Ok(s) => match candidate_path(config_file, env_default) {
                    Some(p) => s.filename_view() == file_name_spec(p) && is_abs(s.dir_view()),
                    None => false,
                },
                Err(e) => match e {
                    SettingsError::EnvVar => candidate_path(config_file, env_default) is None,
                    SettingsError::NotFound(p) => candidate_path(config_file, env_default)
                        == Some(p@),
                    SettingsError::Io(p) => candidate_path(config_file, env_default) == Some(p@),
                    SettingsError::Parse(_) => candidate_path(config_file, env_default) is Some,
                    _ => false,
                },
            },
            (r matches Err(SettingsError::EnvVar)) <==> candidate_path(
                config_file,
                env_default,
            ) is None,
    {
        let path_str: &str = match config_file {
            Some(f) => f,
            None => match env_default {
                Some(e) => {
                    if e.unicode_len() == 0 {
                        return Err(SettingsError::EnvVar);
                    }
                    e
                },
                None => {
                    return Err(SettingsError::EnvVar);
                },
            },
        };
        if !path_exists(path_str) {
            return Err(SettingsError::NotFound(String::from_str(path_str)));
        }
        let canonical = match canonicalize_str(path_str) {
            Some(c) => c,
            None => {
                return Err(SettingsError::Io(String::from_str(path_str)));
            },
        };
        let store = match load_store(path_str) {
            Ok(c) => c,
            Err(m) => {
                return Err(SettingsError::Parse(m));
            },
        };
        Ok(
            Settings {
                config_dir: parent_of(canonical.as_str()),
                config_filename: file_name_of(path_str),
                settings: store,
            },
        )
    }

    /// The directory the loaded configuration file lives in.
    pub fn config_dir(&self) -> (r: &String)
        ensures
            r@ == self.dir_view(),
    {
        &self.config_dir
    }

    /// Looks `key` up as a string value, classifying every failure: the
    /// value it returns is exactly the one this configuration's store holds
    /// at that key.
    pub fn get_string(&self, key: &str) -> (r: Result<String, SettingsError>)
        ensures
            match r {
                Ok(s) => valid_key(key@) && self.keys().contains(key@) && self.strings(
                ).contains_key(key@) && s@ == self.strings()[key@],
                Err(e) => !self.strings().contains_key(key@) && match e {
                    SettingsError::MissingKey(k) => k@ == key@ && valid_key(key@) && !self.keys(
                    ).contains(key@),
                    SettingsError::InvalidKey(k) => k@ == key@ && !valid_key(key@) && !self.keys(
                    ).contains(key@),
                    SettingsError::WrongType(k) => k@ == key@ && valid_key(key@) && self.keys(
                    ).contains(key@),
                    _ => false,
                },
            },
    {
        store_get_string(&self.settings, key)
    }

    /// Looks `key` up as a path.  A missing key or a non-string value fails
    /// as `get_string` does; the empty string is refused; an absolute value
    /// is returned unchanged; a relative one is resolved under
    /// `config_dir`, the directory of the configuration file, not the
    /// process's working directory.
    pub fn get_path(&self, key: &str) -> (r: Result<String, SettingsError>)
        ensures
            match r {
                Ok(p) => self.strings().contains_key(key@) && self.strings()[key@].len() > 0 && p@
                    == resolve_value_spec(self.dir_view(), self.strings()[key@]),
                Err(e) => match e {
                    SettingsError::EmptyValue(k) => k@ == key@ && self.strings().contains_key(key@)
                        && self.strings()[key@].len() == 0,
                    SettingsError::MissingKey(k) => k@ == key@ && valid_key(key@) && !self.keys(
                    ).contains(key@) && !self.strings().contains_key(key@),
                    SettingsError::InvalidKey(k) => k@ == key@ && !valid_key(key@)
                        && !self.strings().contains_key(key@),
                    SettingsError::WrongType(k) => k@ == key@ && valid_key(key@) && self.keys(
                    ).contains(key@) && !self.strings().contains_key(key@),
                    _ => false,
                },
            },
    {
        let value = match self.get_string(key) {
            Ok(v) => v,
            Err(e) => {
                return Err(e);
            },
        };
        if value.unicode_len() == 0 {
            return Err(SettingsError::EmptyValue(String::from_str(key)));
        }
        Ok(resolve_value(self.config_dir.as_str(), value.as_str()))
    }
}

} // verus!
